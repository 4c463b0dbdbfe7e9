//! The ceremony engine: the stateful protocol that registers a new passkey
//! for a user and later verifies a signed assertion against it.
//!
//! Each operation is specified over the registry and session models. What
//! the cryptographic primitive decides (challenge generation, signature
//! verification) is not promised here; everything the engine itself decides
//! — which error is returned on which input, how the session's pending
//! ceremony is consumed and replaced, and how the registry changes — is.

use vstd::prelude::*;

use webauthn_rs::prelude::{
    CreationChallengeResponse, Passkey, PublicKeyCredential, RegisterPublicKeyCredential,
    RequestChallengeResponse,
};
use webauthn_rs::Webauthn;

use crate::errors::Error;
use crate::registry::{registration_recorded, Credential, Registry};
use crate::rp;
use crate::session::{Ceremony, Session};

verus! {

/// The engine: the ceremony primitive configured for one relying party,
/// and the registry of users and credentials it authenticates against.
pub struct Engine {
    pub webauthn: Webauthn,
    pub registry: Registry,
}

/// The registry `post` is `pre` with exactly the signature counter of the
/// user's credential `cid` raised to `c`, which exceeds its old value, and
/// nothing else changed.
pub open spec fn counter_bumped(pre: Registry, post: Registry, id: u128, cid: Seq<u8>, c: u32) -> bool {
    exists|i: int, j: int|
        {
            &&& pre.cred_pos(i, j)
            &&& pre.cred_id_at(i, j) == cid
            &&& pre.entries()[i].id == id
            &&& c > pre.entries()[i].credentials@[j].signature_counter
            &&& crate::registry::counter_updated(pre, post, i, j, c)
        }
}

/// What a finished registration ceremony yields: the subject user and the
/// credential that was recorded for it.
pub struct RegisteredCredential {
    pub user_id: u128,
    pub username: String,
    pub credential: Credential,
}

/// What a finished authentication ceremony yields: the authenticated
/// user's public profile and the credential counter that was advanced.
pub struct AuthSuccess {
    pub user_id: u128,
    pub username: String,
    pub credential_id: Vec<u8>,
    pub signature_counter: u32,
}

impl Engine {
    /// The engine is well formed when its registry is.
    pub open spec fn wf(self) -> bool {
        self.registry.wf()
    }

    /// Configures the engine for the relying party identified by `rp_id`,
    /// reachable at the origin `rp_origin`, with an empty registry. Fails
    /// with `Unknown` when the origin does not parse or does not match the
    /// relying-party id.
    pub fn new(rp_id: &str, rp_origin: &str) -> (r: Result<Engine, Error>)
        ensures
            r matches Ok(e) ==> e.wf() && e.registry.entries().len() == 0,
            r matches Err(e) ==> e == Error::Unknown,
    {
        let origin = match rp::parse_origin(rp_origin) {
            Ok(u) => u,
            Err(()) => {
                return Err(Error::Unknown);
            },
        };
        let builder = match rp::rp_builder(rp_id, &origin) {
            Ok(b) => b,
            Err(_) => {
                return Err(Error::Unknown);
            },
        };
        let webauthn = match rp::rp_build(builder) {
            Ok(w) => w,
            Err(_) => {
                return Err(Error::Unknown);
            },
        };
        Ok(Engine { webauthn, registry: Registry::new() })
    }

    /// Starts a registration ceremony for `username`.
    ///
    /// Fails with `UserExists` exactly when the username already resolves
    /// to a user owning at least one credential; a known but credential-less
    /// user may retry. On success the session's pending ceremony — whatever
    /// it was — is replaced by the new registration ceremony, bound to the
    /// existing id of a known username and to a fresh id otherwise. Nothing
    /// is written to the registry until the ceremony finishes.
    pub fn start_register(&mut self, session: &mut Session, username: &str) -> (r: Result<
        CreationChallengeResponse,
        Error,
    >)
        requires
            old(self).wf(),
        ensures
            final(self).wf(),
            final(self).registry == old(self).registry,
            final(session).user == old(session).user,
            r == Err::<CreationChallengeResponse, Error>(Error::UserExists) <==> old(
                self,
            ).registry.credentialed(username@),
            r is Err ==> r == Err::<CreationChallengeResponse, Error>(Error::UserExists) || r
                == Err::<CreationChallengeResponse, Error>(Error::Unknown),
            r == Err::<CreationChallengeResponse, Error>(Error::UserExists) ==> *final(session)
                == *old(session),
            r == Err::<CreationChallengeResponse, Error>(Error::Unknown)
                ==> final(session).pending is None,
            r is Ok ==> {
                &&& final(session).pending matches Some(Ceremony::Registration {
                    username: u,
                    user_id: id,
                    ..
                })
                &&& u@ == username@
                &&& old(self).registry.has_username(username@) ==> id == old(
                    self,
                ).registry.entries()[old(self).registry.name_index(username@)].id
                &&& !old(self).registry.has_username(username@) ==> !old(
                    self,
                ).registry.has_user_id(id)
            },
    {
        if self.registry.has_registered_user(username) {
            return Err(Error::UserExists);
        }
        let minted = rp::fresh_id();
        let user_id = match self.registry.resolve_or_create_id(username, minted) {
            Ok(id) => id,
            Err(e) => {
                session.pending = None;
                return Err(e);
            },
        };
        // A known username is excluded from registering a credential it
        // already owns; for a fresh user there is nothing to exclude.
        let exclude = match self.registry.get_username(user_id) {
            Some(_) => Some(self.registry.excluded_credentials(user_id)),
            None => None,
        };
        session.pending = None;
        match rp::start_registration_ceremony(&self.webauthn, user_id, username, exclude) {
            Ok((ccr, state)) => {
                session.pending = Some(
                    Ceremony::Registration { username: username.to_owned(), user_id, state },
                );
                Ok(ccr)
            },
            Err(_) => Err(Error::Unknown),
        }
    }

    /// Finishes the pending registration ceremony with the authenticator's
    /// response.
    ///
    /// The pending ceremony is consumed whatever the outcome: after this
    /// call the session holds none, so a second finish fails with
    /// `CorruptSession`, which is also returned exactly when no registration
    /// ceremony was pending. A response the primitive rejects fails with
    /// `BadRequest` and leaves the registry unchanged. On success exactly
    /// one credential is recorded — appended to the subject user, or filed
    /// in a new single-credential entry when the user is new — and returned
    /// so that the caller can persist it.
    pub fn finish_register(&mut self, session: &mut Session, req: &RegisterPublicKeyCredential) -> (r:
        Result<RegisteredCredential, Error>)
        requires
            old(self).wf(),
        ensures
            final(self).wf(),
            final(session).pending is None,
            final(session).user == old(session).user,
            r matches Err(e) && e == Error::CorruptSession <==> !crate::session::has_pending_registration(
                *old(session),
            ),
            r is Err ==> final(self).registry == old(self).registry,
            r matches Ok(out) ==> {
                &&& old(session).pending matches Some(Ceremony::Registration {
                    username: u,
                    user_id: id,
                    ..
                })
                &&& out.user_id == id
                &&& out.username@ == u@
                &&& out.credential.owner_id == id
                &&& out.credential.signature_counter == 0
                &&& exists|c: Credential|
                    crate::registry::creds_agree(out.credential, c)
                        && #[trigger] registration_recorded(
                        old(self).registry,
                        final(self).registry,
                        u@,
                        id,
                        c,
                    )
            },
    {
        let pending = session.pending.take();
        let (username, user_id, state) = match pending {
            Some(Ceremony::Registration { username, user_id, state }) => (username, user_id, state),
            _ => {
                return Err(Error::CorruptSession);
            },
        };
        let passkey = match rp::finish_registration_ceremony(&self.webauthn, req, &state) {
            Ok(sk) => sk,
            Err(_) => {
                return Err(Error::BadRequest);
            },
        };
        let key_material = match rp::passkey_to_bytes(&passkey) {
            Ok(b) => b,
            Err(()) => {
                return Err(Error::Unknown);
            },
        };
        let credential = Credential {
            credential_id: rp::passkey_cred_id(&passkey),
            public_key: key_material,
            signature_counter: 0,
            owner_id: user_id,
        };
        let recorded = credential.clone();
        let ghost c = credential;
        match self.registry.record_credential(username.as_str(), user_id, credential) {
            Ok(()) => {
                proof {
                    assert(crate::registry::creds_agree(recorded, c));
                    assert(registration_recorded(
                        old(self).registry,
                        self.registry,
                        username@,
                        user_id,
                        c,
                    ));
                }
                Ok(RegisteredCredential { user_id, username, credential: recorded })
            },
            Err(e) => Err(e),
        }
    }

    /// Starts an authentication ceremony for `username`.
    ///
    /// Fails with `UserNotFound` exactly when the username resolves to
    /// nobody, and with `UserHasNoCredentials` exactly when the user owns
    /// no credentials; in both cases the session is untouched. On success
    /// the session's pending ceremony — whatever it was — is replaced by
    /// the new authentication ceremony, bound to the challenge issued over
    /// the user's full credential set.
    pub fn start_authentication(&mut self, session: &mut Session, username: &str) -> (r: Result<
        RequestChallengeResponse,
        Error,
    >)
        requires
            old(self).wf(),
        ensures
            final(self).wf(),
            final(self).registry == old(self).registry,
            final(session).user == old(session).user,
            r == Err::<RequestChallengeResponse, Error>(Error::UserNotFound) <==> !old(
                self,
            ).registry.has_username(username@),
            r == Err::<RequestChallengeResponse, Error>(Error::UserHasNoCredentials) <==> old(
                self,
            ).registry.has_username(username@) && old(self).registry.entries()[old(
                self,
            ).registry.name_index(username@)].credentials@.len() == 0,
            r is Err ==> r == Err::<RequestChallengeResponse, Error>(Error::UserNotFound) || r
                == Err::<RequestChallengeResponse, Error>(Error::UserHasNoCredentials) || r
                == Err::<RequestChallengeResponse, Error>(Error::Unknown),
            (r == Err::<RequestChallengeResponse, Error>(Error::UserNotFound) || r == Err::<
                RequestChallengeResponse,
                Error,
            >(Error::UserHasNoCredentials)) ==> *final(session) == *old(session),
            r == Err::<RequestChallengeResponse, Error>(Error::Unknown)
                ==> final(session).pending is None,
            r is Ok ==> {
                &&& final(session).pending matches Some(Ceremony::Authentication { user_id: id, .. })
                &&& old(self).registry.has_username(username@)
                &&& id == old(self).registry.entries()[old(self).registry.name_index(
                    username@,
                )].id
            },
    {
        let user_id = match self.registry.get_user_id(username) {
            Some(id) => id,
            None => {
                return Err(Error::UserNotFound);
            },
        };
        proof {
            let k = self.registry.name_index(username@);
            assert(0 <= k < self.registry.entries().len() && self.registry.entries()[k].username@
                == username@);
            assert(self.registry.has_user_id(user_id));
            let l = self.registry.id_index(user_id);
            assert(self.registry.entries()[l].id == user_id);
            assert(k == l);
        }
        let creds = match self.registry.allowed_credentials(user_id) {
            Ok(v) => v,
            Err(e) => {
                return Err(e);
            },
        };
        session.pending = None;
        let mut passkeys: Vec<Passkey> = Vec::new();
        let n = creds.len();
        for i in 0..n
            invariant
                n == creds@.len(),
                *self == *old(self),
                old(self).wf(),
                session.pending is None,
                session.user == old(session).user,
                old(self).registry.has_username(username@),
                old(self).registry.entries()[old(self).registry.name_index(
                    username@,
                )].credentials@.len() > 0,
        {
            match rp::passkey_from_bytes(&creds[i].public_key) {
                Ok(sk) => passkeys.push(sk),
                Err(()) => {
                    return Err(Error::Unknown);
                },
            }
        }
        match rp::start_authentication_ceremony(&self.webauthn, &passkeys) {
            Ok((rcr, state)) => {
                session.pending = Some(Ceremony::Authentication { user_id, state });
                Ok(rcr)
            },
            Err(_) => Err(Error::Unknown),
        }
    }

    /// Finishes the pending authentication ceremony with the signed
    /// assertion.
    ///
    /// The pending ceremony is consumed whatever the outcome, so a second
    /// finish fails with `CorruptSession`, which is also returned exactly
    /// when no authentication ceremony was pending. An assertion the
    /// primitive rejects fails with `BadRequest`. An assertion that
    /// verifies but reports a signature counter at or below the stored one
    /// fails with `CloneDetected` and leaves the registry unchanged. On
    /// success the matching credential's counter is raised to the reported
    /// value, the session is bound to the user, and the user's public
    /// profile is returned together with the counter that was recorded.
    pub fn finish_authentication(&mut self, session: &mut Session, auth: &PublicKeyCredential) -> (r:
        Result<AuthSuccess, Error>)
        requires
            old(self).wf(),
        ensures
            final(self).wf(),
            final(session).pending is None,
            r matches Err(e) && e == Error::CorruptSession <==> !crate::session::has_pending_authentication(
                *old(session),
            ),
            r is Err ==> final(self).registry == old(self).registry && final(session).user == old(
                session,
            ).user,
            r matches Ok(out) ==> {
                &&& old(session).pending matches Some(Ceremony::Authentication { user_id: id, .. })
                &&& out.user_id == id
                &&& final(session).user == Some(id)
                &&& counter_bumped(
                    old(self).registry,
                    final(self).registry,
                    id,
                    out.credential_id@,
                    out.signature_counter,
                )
                &&& old(self).registry.has_user_id(id)
                &&& out.username@ == old(self).registry.entries()[old(self).registry.id_index(
                    id,
                )].username@
            },
    {
        let pending = session.pending.take();
        let (user_id, state) = match pending {
            Some(Ceremony::Authentication { user_id, state }) => (user_id, state),
            _ => {
                return Err(Error::CorruptSession);
            },
        };
        let result = match rp::finish_authentication_ceremony(&self.webauthn, auth, &state) {
            Ok(res) => res,
            Err(_) => {
                return Err(Error::BadRequest);
            },
        };
        let credential_id = rp::auth_result_cred_id(&result);
        let counter = rp::auth_result_counter(&result);
        let username = match self.registry.get_username(user_id) {
            Some(name) => name,
            None => {
                return Err(Error::Unknown);
            },
        };
        let ghost pre = self.registry;
        match self.registry.bump_counter(user_id, &credential_id, counter) {
            Ok(()) => {},
            Err(e) => {
                return Err(e);
            },
        }
        proof {
            assert(counter_bumped(pre, self.registry, user_id, credential_id@, counter));
        }
        session.user = Some(user_id);
        Ok(AuthSuccess { user_id, username, credential_id, signature_counter: counter })
    }
}

} // verus!

