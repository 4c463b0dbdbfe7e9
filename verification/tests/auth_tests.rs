use passkey_polls::{Credential, Engine, Error, Registry, Session};
use webauthn_rs::prelude::{PublicKeyCredential, RegisterPublicKeyCredential};

fn test_engine() -> Engine {
    Engine::new("localhost", "http://localhost:8080").expect("engine configuration")
}

fn credential(id: &[u8], counter: u32, owner: u128) -> Credential {
    Credential {
        credential_id: id.to_vec(),
        public_key: b"key-material".to_vec(),
        signature_counter: counter,
        owner_id: owner,
    }
}

fn garbage_register_response() -> RegisterPublicKeyCredential {
    let json = r#"{
        "id": "AAAA",
        "rawId": "AAAA",
        "response": {
            "attestationObject": "AAAA",
            "clientDataJSON": "AAAA"
        },
        "type": "public-key",
        "extensions": {}
    }"#;
    serde_json::from_str(json).expect("register response shape")
}

fn garbage_auth_response() -> PublicKeyCredential {
    let json = r#"{
        "id": "AAAA",
        "rawId": "AAAA",
        "response": {
            "authenticatorData": "AAAA",
            "clientDataJSON": "AAAA",
            "signature": "AAAA",
            "userHandle": null
        },
        "type": "public-key",
        "extensions": {}
    }"#;
    serde_json::from_str(json).expect("auth response shape")
}

#[test]
fn engine_rejects_bad_origin() {
    assert!(matches!(Engine::new("localhost", "not a url"), Err(Error::Unknown)));
    assert!(matches!(
        Engine::new("example.com", "http://elsewhere.org"),
        Err(Error::Unknown)
    ));
}

#[test]
fn start_register_issues_challenge_for_new_user() {
    let mut engine = test_engine();
    let mut session = Session::new();
    let r = engine.start_register(&mut session, "alice");
    assert!(r.is_ok());
    assert!(session.pending.is_some());
    assert!(session.user.is_none());
}

#[test]
fn start_register_rejects_registered_username() {
    let mut engine = test_engine();
    engine
        .registry
        .record_credential("alice", 7, credential(b"cred-1", 0, 7))
        .unwrap();
    let mut session = Session::new();
    let r = engine.start_register(&mut session, "alice");
    assert!(matches!(r, Err(Error::UserExists)));
    assert!(session.pending.is_none());
}

#[test]
fn registered_user_gets_exactly_one_user_and_credential() {
    let mut registry = Registry::new();
    registry
        .record_credential("alice", 7, credential(b"cred-1", 0, 7))
        .unwrap();
    assert_eq!(registry.get_user_id("alice"), Some(7));
    assert_eq!(registry.get_username(7).as_deref(), Some("alice"));
    let creds = registry.allowed_credentials(7).unwrap();
    assert_eq!(creds.len(), 1);
    assert_eq!(creds[0].credential_id, b"cred-1".to_vec());
    assert_eq!(creds[0].signature_counter, 0);
    assert!(registry.has_registered_user("alice"));
}

#[test]
fn duplicate_credential_id_is_rejected() {
    let mut registry = Registry::new();
    registry
        .record_credential("alice", 7, credential(b"cred-1", 0, 7))
        .unwrap();
    let r = registry.record_credential("bob", 8, credential(b"cred-1", 0, 8));
    assert!(matches!(r, Err(Error::BadRequest)));
}

#[test]
fn new_user_under_taken_username_is_rejected() {
    let mut registry = Registry::new();
    registry
        .record_credential("alice", 7, credential(b"cred-1", 0, 7))
        .unwrap();
    let r = registry.record_credential("alice", 9, credential(b"cred-2", 0, 9));
    assert!(matches!(r, Err(Error::UserExists)));
}

#[test]
fn counter_flow_matches_scenario() {
    // Registration stores the authenticator's initial counter; a later
    // authentication with counter 5 succeeds and raises the stored value;
    // replaying the same counter is clone-detected.
    let mut registry = Registry::new();
    registry
        .record_credential("alice", 7, credential(b"cred-1", 0, 7))
        .unwrap();
    assert!(registry.bump_counter(7, &b"cred-1".to_vec(), 5).is_ok());
    let creds = registry.allowed_credentials(7).unwrap();
    assert_eq!(creds[0].signature_counter, 5);
    let replay = registry.bump_counter(7, &b"cred-1".to_vec(), 5);
    assert!(matches!(replay, Err(Error::CloneDetected)));
    let lower = registry.bump_counter(7, &b"cred-1".to_vec(), 3);
    assert!(matches!(lower, Err(Error::CloneDetected)));
    let creds = registry.allowed_credentials(7).unwrap();
    assert_eq!(creds[0].signature_counter, 5);
}

#[test]
fn bump_counter_rejects_foreign_credential() {
    let mut registry = Registry::new();
    registry
        .record_credential("alice", 7, credential(b"cred-1", 4, 7))
        .unwrap();
    let r = registry.bump_counter(9, &b"cred-1".to_vec(), 10);
    assert!(matches!(r, Err(Error::BadRequest)));
    let r = registry.bump_counter(7, &b"cred-9".to_vec(), 10);
    assert!(matches!(r, Err(Error::BadRequest)));
}

#[test]
fn second_registration_of_credential_less_user_may_retry() {
    let mut engine = test_engine();
    engine.registry.store_username("carol", 11).unwrap();
    let mut session = Session::new();
    let r = engine.start_register(&mut session, "carol");
    assert!(r.is_ok());
}

#[test]
fn store_username_rejects_taken_name_or_id() {
    let mut registry = Registry::new();
    registry.store_username("dave", 1).unwrap();
    assert!(matches!(registry.store_username("dave", 2), Err(Error::UserExists)));
    assert!(matches!(registry.store_username("erin", 1), Err(Error::UserExists)));
}

#[test]
fn start_authentication_unknown_user() {
    let mut engine = test_engine();
    let mut session = Session::new();
    let r = engine.start_authentication(&mut session, "nobody");
    assert!(matches!(r, Err(Error::UserNotFound)));
    assert!(session.pending.is_none());
}

#[test]
fn start_authentication_without_credentials() {
    let mut engine = test_engine();
    engine.registry.store_username("bob", 9).unwrap();
    let mut session = Session::new();
    let r = engine.start_authentication(&mut session, "bob");
    assert!(matches!(r, Err(Error::UserHasNoCredentials)));
}

#[test]
fn finish_register_consumes_state_exactly_once() {
    let mut engine = test_engine();
    let mut session = Session::new();
    engine.start_register(&mut session, "alice").unwrap();
    assert!(session.pending.is_some());
    // A response no authenticator signed fails verification, and the
    // ceremony state is consumed regardless of the outcome.
    let first = engine.finish_register(&mut session, &garbage_register_response());
    assert!(matches!(first, Err(Error::BadRequest)));
    assert!(session.pending.is_none());
    let second = engine.finish_register(&mut session, &garbage_register_response());
    assert!(matches!(second, Err(Error::CorruptSession)));
}

#[test]
fn finish_without_pending_ceremony_is_corrupt_session() {
    let mut engine = test_engine();
    let mut session = Session::new();
    assert!(matches!(
        engine.finish_register(&mut session, &garbage_register_response()),
        Err(Error::CorruptSession)
    ));
    assert!(matches!(
        engine.finish_authentication(&mut session, &garbage_auth_response()),
        Err(Error::CorruptSession)
    ));
}

#[test]
fn pending_ceremony_of_other_kind_is_corrupt_session() {
    // Only one ceremony is pending per session; a finish call of the other
    // kind finds no matching ceremony, fails with a corrupt-session error,
    // and consumes the mismatched state, so the superseded ceremony cannot
    // be finished afterwards either.
    let mut engine = test_engine();
    let mut session = Session::new();
    engine.start_register(&mut session, "alice").unwrap();
    assert!(session.pending.is_some());
    let r = engine.finish_authentication(&mut session, &garbage_auth_response());
    assert!(matches!(r, Err(Error::CorruptSession)));
    assert!(session.pending.is_none());
    let r = engine.finish_register(&mut session, &garbage_register_response());
    assert!(matches!(r, Err(Error::CorruptSession)));
}

#[test]
fn second_start_supersedes_first_ceremony() {
    // Starting a new ceremony replaces the pending one: after a second
    // start the session holds exactly one pending ceremony, and a finish
    // call consumes it in one step.
    let mut engine = test_engine();
    let mut session = Session::new();
    engine.start_register(&mut session, "alice").unwrap();
    engine.start_register(&mut session, "frank").unwrap();
    assert!(session.pending.is_some());
    let r = engine.finish_register(&mut session, &garbage_register_response());
    assert!(matches!(r, Err(Error::BadRequest)));
    assert!(session.pending.is_none());
}

#[test]
fn start_authentication_issues_challenge_for_registered_user() {
    let mut engine = test_engine();
    let mut session = Session::new();
    // Key material fabricated in a test does not decode into a passkey, so
    // challenge generation reports the internal error; the user checks
    // still pass first.
    engine
        .registry
        .record_credential("alice", 7, credential(b"cred-1", 0, 7))
        .unwrap();
    let r = engine.start_authentication(&mut session, "alice");
    assert!(matches!(r, Err(Error::Unknown)));
}

#[test]
fn validate_session_and_ownership() {
    let mut session = Session::new();
    assert!(matches!(session.validate_session(), Err(Error::Unauthorized)));
    session.user = Some(42);
    assert_eq!(session.validate_session().unwrap(), 42);
    assert_eq!(session.check_owner(42).unwrap(), 42);
    assert!(matches!(session.check_owner(7), Err(Error::Unauthorized)));
    session.user = None;
    assert!(matches!(session.check_owner(42), Err(Error::Unauthorized)));
}

#[test]
fn error_status_codes_and_messages() {
    assert_eq!(Error::UserNotFound.status_code(), 404);
    assert_eq!(Error::PollNotFound.status_code(), 404);
    assert_eq!(Error::VoteNotFound.status_code(), 404);
    assert_eq!(Error::Unauthorized.status_code(), 401);
    assert_eq!(Error::CloneDetected.status_code(), 401);
    assert_eq!(Error::Unknown.status_code(), 500);
    assert_eq!(Error::DatabaseError.status_code(), 500);
    assert_eq!(Error::BadRequest.status_code(), 400);
    assert_eq!(Error::UserExists.status_code(), 400);
    assert_eq!(Error::CorruptSession.status_code(), 400);
    assert_eq!(Error::UserNotFound.message(), "User not found");
    assert_eq!(Error::CorruptSession.message(), "Corrupt session");
    // Clone detection is surfaced to the client like any other failed
    // verification.
    assert_eq!(Error::CloneDetected.message(), "Bad request");
}
