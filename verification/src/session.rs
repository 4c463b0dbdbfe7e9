//! The per-browser session state the engine works against.
//!
//! A session holds at most one pending ceremony and, once an authentication
//! has completed, the id of the user it is bound to. Storing and
//! transporting the session (cookies, server-side stores) is the caller's
//! business; the engine only reads and rewrites this value.

use vstd::prelude::*;

use webauthn_rs::prelude::{PasskeyAuthentication, PasskeyRegistration};

use crate::errors::Error;

verus! {

/// One in-flight ceremony: the kind, the subject, and the private state the
/// primitive needs to verify the eventual response.
#[allow(inconsistent_fields)]
pub enum Ceremony {
    Registration { username: String, user_id: u128, state: PasskeyRegistration },
    Authentication { user_id: u128, state: PasskeyAuthentication },
}

/// The ceremony-relevant state of one browser session. At most one ceremony
/// is pending at a time: starting a new one discards the old one.
pub struct Session {
    pub pending: Option<Ceremony>,
    pub user: Option<u128>,
}

/// Does the session hold a pending registration ceremony?
pub open spec fn has_pending_registration(s: Session) -> bool {
    s.pending matches Some(c) && c is Registration
}

/// Does the session hold a pending authentication ceremony?
pub open spec fn has_pending_authentication(s: Session) -> bool {
    s.pending matches Some(c) && c is Authentication
}

impl Session {
    /// A fresh session: no pending ceremony, not bound to any user.
    pub fn new() -> (s: Session)
        ensures
            s.pending is None,
            s.user is None,
    {
        Session { pending: None, user: None }
    }

    /// The id of the user this session is bound to, or `Unauthorized` when
    /// no authentication has completed in it.
    pub fn validate_session(&self) -> (r: Result<u128, Error>)
        ensures
            r == match self.user {
                Some(id) => Ok::<u128, Error>(id),
                None => Err::<u128, Error>(Error::Unauthorized),
            },
    {
        match self.user {
            Some(id) => Ok(id),
            None => Err(Error::Unauthorized),
        }
    }

    /// The ownership check resources are guarded by: the session must be
    /// bound to a user and that user must be the owner.
    pub fn check_owner(&self, owner_id: u128) -> (r: Result<u128, Error>)
        ensures
            r == match self.user {
                Some(id) => if id == owner_id {
                    Ok::<u128, Error>(id)
                } else {
                    Err::<u128, Error>(Error::Unauthorized)
                },
                None => Err::<u128, Error>(Error::Unauthorized),
            },
    {
        match self.user {
            Some(id) => if id == owner_id {
                Ok(id)
            } else {
                Err(Error::Unauthorized)
            },
            None => Err(Error::Unauthorized),
        }
    }
}

/// Ceremony states are single-use: every `finish_*` call leaves the session
/// with no pending ceremony, whatever its outcome, so a session without one
/// satisfies neither finish's precondition for success and a repeated
/// finish call fails with `CorruptSession`.
pub proof fn lemma_finish_consumes_exactly_once(s: Session)
    requires
        s.pending is None,
    ensures
        !has_pending_registration(s),
        !has_pending_authentication(s),
{
}

/// Starting a new ceremony supersedes the old one: once a ceremony of one
/// kind is pending, a finish call of the other kind finds no matching
/// ceremony and fails with `CorruptSession`.
pub proof fn lemma_supersession_rejects_other_kind(s: Session)
    ensures
        has_pending_authentication(s) ==> !has_pending_registration(s),
        has_pending_registration(s) ==> !has_pending_authentication(s),
{
}

} // verus!
