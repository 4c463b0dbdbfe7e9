//! A passkey (public-key credential) authentication engine with a small
//! single-choice poll service built on top of it.
//!
//! The heart of the crate is the ceremony engine: a stateful protocol that
//! registers a new public-key credential for a user and later verifies a
//! signed assertion against it, with replay/clone detection through a
//! monotonic signature counter.

use vstd::prelude::*;

mod engine;
mod errors;
pub mod manage_polls;
pub mod poll_store;
mod registry;
mod rp;
mod session;

pub use engine::{counter_bumped, AuthSuccess, Engine, RegisteredCredential};
pub use errors::Error;
pub use registry::{
    counter_updated, credential_appended, creds_agree, lemma_counter_monotonic,
    lemma_new_user_registration, lemma_replay_rejected, registration_recorded, user_added,
    Credential, Registry, UserEntry,
};
pub use session::{
    has_pending_authentication, has_pending_registration, lemma_finish_consumes_exactly_once,
    lemma_supersession_rejects_other_kind, Ceremony, Session,
};

verus! {

} // verus!
