//! The unified error type shared by the ceremony engine, the credential
//! registry and the poll service.

use vstd::prelude::*;

verus! {

/// Everything that can go wrong in a ceremony or a poll operation.
///
/// Client-input errors (`BadRequest`, `UserNotFound`, ...) are recoverable;
/// session-corruption errors mean the ceremony must be restarted from its
/// `start_*` call; `CloneDetected` is a hard authentication failure raised
/// when a presented signature counter does not exceed the stored one, even
/// though the signature itself verified.
#[derive(Clone, Copy, Debug, PartialEq, Eq, Structural)]
pub enum Error {
    /// An internal failure in the credential-ceremony primitive.
    Unknown,
    /// The session transport failed to produce a stored value.
    SessionGet,
    /// The session transport failed to store a value.
    SessionInsert,
    /// No pending ceremony of the expected kind was found in the session.
    CorruptSession,
    /// The ceremony response failed verification; deliberately generic.
    BadRequest,
    /// The username does not resolve to any user.
    UserNotFound,
    /// The user exists but owns no credentials.
    UserHasNoCredentials,
    /// The persistent store reported a failure.
    DatabaseError,
    /// A poll must offer at least two options.
    InvalidPollOptions,
    /// The poll is no longer accepting votes.
    PollClosed,
    /// The poll id does not resolve to any poll.
    PollNotFound,
    /// The session is not bound to a user, or the user does not own the
    /// resource.
    Unauthorized,
    /// The user has already voted on this poll.
    AlreadyVoted,
    /// The user has no vote on this poll to remove.
    VoteNotFound,
    /// The username is already registered with at least one credential.
    UserExists,
    /// The presented signature counter did not exceed the stored one: the
    /// assertion is a replay or comes from a cloned authenticator.
    CloneDetected,
}

impl Error {
    /// The HTTP status code this error is reported with.
    pub open spec fn spec_status_code(self) -> u16 {
        match self {
            Error::Unknown => 500,
            Error::SessionGet => 400,
            Error::SessionInsert => 400,
            Error::CorruptSession => 400,
            Error::BadRequest => 400,
            Error::UserNotFound => 404,
            Error::UserHasNoCredentials => 400,
            Error::DatabaseError => 500,
            Error::InvalidPollOptions => 400,
            Error::PollClosed => 400,
            Error::PollNotFound => 404,
            Error::Unauthorized => 401,
            Error::AlreadyVoted => 400,
            Error::VoteNotFound => 404,
            Error::UserExists => 400,
            Error::CloneDetected => 401,
        }
    }

    /// Maps the error to the HTTP status code it is answered with: not found
    /// for missing users, polls and votes, unauthorized for session and
    /// clone-detection failures, internal server error for store and
    /// primitive failures, and bad request for the rest.
    pub fn status_code(&self) -> (code: u16)
        ensures
            code == self.spec_status_code(),
    {
        match *self {
            Error::Unknown => 500,
            Error::SessionGet => 400,
            Error::SessionInsert => 400,
            Error::CorruptSession => 400,
            Error::BadRequest => 400,
            Error::UserNotFound => 404,
            Error::UserHasNoCredentials => 400,
            Error::DatabaseError => 500,
            Error::InvalidPollOptions => 400,
            Error::PollClosed => 400,
            Error::PollNotFound => 404,
            Error::Unauthorized => 401,
            Error::AlreadyVoted => 400,
            Error::VoteNotFound => 404,
            Error::UserExists => 400,
            Error::CloneDetected => 401,
        }
    }

    /// A human-readable description of the error. Verification failures are
    /// deliberately generic so the response does not reveal which check
    /// failed.
    pub open spec fn spec_message(self) -> Seq<char> {
        match self {
            Error::Unknown => "Unknown webauthn error"@,
            Error::SessionGet => "Corrupt session"@,
            Error::SessionInsert => "Corrupt session"@,
            Error::CorruptSession => "Corrupt session"@,
            Error::BadRequest => "Bad request"@,
            Error::UserNotFound => "User not found"@,
            Error::UserHasNoCredentials => "User has no credentials"@,
            Error::DatabaseError => "Database error"@,
            Error::InvalidPollOptions => "Invalid poll options"@,
            Error::PollClosed => "Poll already closed"@,
            Error::PollNotFound => "Poll not found"@,
            Error::Unauthorized => "User not authorized"@,
            Error::AlreadyVoted => "User already voted"@,
            Error::VoteNotFound => "User did not vote"@,
            Error::UserExists => "User already exists"@,
            Error::CloneDetected => "Bad request"@,
        }
    }

    /// The message the error is reported with.
    pub fn message(&self) -> (msg: String)
        ensures
            msg@ == self.spec_message(),
    {
        match *self {
            Error::Unknown => "Unknown webauthn error".to_owned(),
            Error::SessionGet => "Corrupt session".to_owned(),
            Error::SessionInsert => "Corrupt session".to_owned(),
            Error::CorruptSession => "Corrupt session".to_owned(),
            Error::BadRequest => "Bad request".to_owned(),
            Error::UserNotFound => "User not found".to_owned(),
            Error::UserHasNoCredentials => "User has no credentials".to_owned(),
            Error::DatabaseError => "Database error".to_owned(),
            Error::InvalidPollOptions => "Invalid poll options".to_owned(),
            Error::PollClosed => "Poll already closed".to_owned(),
            Error::PollNotFound => "Poll not found".to_owned(),
            Error::Unauthorized => "User not authorized".to_owned(),
            Error::AlreadyVoted => "User already voted".to_owned(),
            Error::VoteNotFound => "User did not vote".to_owned(),
            Error::UserExists => "User already exists".to_owned(),
            Error::CloneDetected => "Bad request".to_owned(),
        }
    }
}

} // verus!
