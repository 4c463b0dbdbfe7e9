//! The boundary to the cryptographic ceremony primitive.
//!
//! Everything here is trusted: each item declares an outside type or wraps a
//! single call into the `webauthn_rs` / `serde_json` / `uuid` crates, and the
//! verified engine is proved against these contracts. Challenge generation
//! and signature verification are randomized or cryptographic, so the
//! wrappers promise nothing about the values they hand back; the engine's
//! own functions state what holds for every outcome.

use vstd::prelude::*;

use webauthn_rs::prelude::{
    AuthenticationResult, CreationChallengeResponse, CredentialID, Passkey, PasskeyAuthentication,
    PasskeyRegistration, PublicKeyCredential, RegisterPublicKeyCredential,
    RequestChallengeResponse, Url, Uuid, WebauthnError,
};
use webauthn_rs::{Webauthn, WebauthnBuilder};

verus! {

#[verifier::external_type_specification]
#[verifier::external_body]
pub struct ExUrl(Url);

#[verifier::external_type_specification]
#[verifier::external_body]
pub struct ExWebauthn(Webauthn);

#[verifier::external_type_specification]
#[verifier::external_body]
pub struct ExWebauthnBuilder<'a>(WebauthnBuilder<'a>);

#[verifier::external_type_specification]
#[verifier::external_body]
pub struct ExWebauthnError(WebauthnError);

#[verifier::external_type_specification]
#[verifier::external_body]
pub struct ExPasskeyRegistration(PasskeyRegistration);

#[verifier::external_type_specification]
#[verifier::external_body]
pub struct ExPasskeyAuthentication(PasskeyAuthentication);

#[verifier::external_type_specification]
#[verifier::external_body]
pub struct ExPasskey(Passkey);

#[verifier::external_type_specification]
#[verifier::external_body]
pub struct ExCreationChallengeResponse(CreationChallengeResponse);

#[verifier::external_type_specification]
#[verifier::external_body]
pub struct ExRequestChallengeResponse(RequestChallengeResponse);

#[verifier::external_type_specification]
#[verifier::external_body]
pub struct ExRegisterPublicKeyCredential(RegisterPublicKeyCredential);

#[verifier::external_type_specification]
#[verifier::external_body]
pub struct ExPublicKeyCredential(PublicKeyCredential);

#[verifier::external_type_specification]
#[verifier::external_body]
pub struct ExAuthenticationResult(AuthenticationResult);

/// Relies on uuid::Uuid::new_v4: a random identifier for a new user, poll,
/// option or vote row. Nothing can be promised of a random value; callers
/// check freshness against their own tables.
#[verifier::external_body]
pub(crate) fn fresh_id() -> u128 {
    Uuid::new_v4().as_u128()
}

/// Relies on url::Url::parse to turn the configured origin string into a
/// URL. A parse failure carries no data; the caller reports it.
#[verifier::external_body]
pub(crate) fn parse_origin(s: &str) -> Result<Url, ()> {
    match Url::parse(s) {
        Ok(u) => Ok(u),
        Err(_) => Err(()),
    }
}

/// Relies on WebauthnBuilder::new: checks that the origin matches the
/// relying-party id and yields a configuration builder.
#[verifier::external_body]
pub(crate) fn rp_builder<'a>(rp_id: &'a str, rp_origin: &'a Url) -> Result<
    WebauthnBuilder<'a>,
    WebauthnError,
> {
    WebauthnBuilder::new(rp_id, rp_origin)
}

/// Relies on WebauthnBuilder::build: finalizes the configuration into the
/// ceremony primitive.
#[verifier::external_body]
pub(crate) fn rp_build(builder: WebauthnBuilder<'_>) -> Result<Webauthn, WebauthnError> {
    builder.build()
}

/// Relies on Webauthn::start_passkey_registration: generates a random
/// challenge bound to the user identity and the excluded credential ids,
/// and the private state needed to verify the eventual response.
#[verifier::external_body]
pub(crate) fn start_registration_ceremony(
    webauthn: &Webauthn,
    user_id: u128,
    username: &str,
    exclude: Option<Vec<Vec<u8>>>,
) -> Result<(CreationChallengeResponse, PasskeyRegistration), WebauthnError> {
    webauthn.start_passkey_registration(
        Uuid::from_u128(user_id),
        username,
        username,
        exclude.map(|v| v.into_iter().map(CredentialID::from).collect()),
    )
}

/// Relies on Webauthn::finish_passkey_registration: cryptographically
/// verifies the authenticator's response against the issued state and, on
/// success, yields the new passkey. Whether it succeeds is decided by the
/// cryptographic checks alone.
#[verifier::external_body]
pub(crate) fn finish_registration_ceremony(
    webauthn: &Webauthn,
    reg: &RegisterPublicKeyCredential,
    state: &PasskeyRegistration,
) -> Result<Passkey, WebauthnError> {
    webauthn.finish_passkey_registration(reg, state)
}

/// Relies on Webauthn::start_passkey_authentication: generates a random
/// challenge bound to the allowed credential set, and the private state
/// needed to verify the signed assertion.
#[verifier::external_body]
pub(crate) fn start_authentication_ceremony(
    webauthn: &Webauthn,
    creds: &Vec<Passkey>,
) -> Result<(RequestChallengeResponse, PasskeyAuthentication), WebauthnError> {
    webauthn.start_passkey_authentication(creds.as_slice())
}

/// Relies on Webauthn::finish_passkey_authentication: cryptographically
/// verifies the signed assertion against the issued state and, on success,
/// yields the authentication result carrying the credential id and the
/// authenticator's reported signature counter.
#[verifier::external_body]
pub(crate) fn finish_authentication_ceremony(
    webauthn: &Webauthn,
    auth: &PublicKeyCredential,
    state: &PasskeyAuthentication,
) -> Result<AuthenticationResult, WebauthnError> {
    webauthn.finish_passkey_authentication(auth, state)
}

/// Relies on Passkey::cred_id: the authenticator-assigned credential id.
#[verifier::external_body]
pub(crate) fn passkey_cred_id(passkey: &Passkey) -> Vec<u8> {
    passkey.cred_id().clone().into()
}

/// Relies on AuthenticationResult::cred_id: the id of the credential that
/// signed the assertion.
#[verifier::external_body]
pub(crate) fn auth_result_cred_id(result: &AuthenticationResult) -> Vec<u8> {
    result.cred_id().clone().into()
}

/// Relies on AuthenticationResult::counter: the signature counter the
/// authenticator reported in the verified assertion.
#[verifier::external_body]
pub(crate) fn auth_result_counter(result: &AuthenticationResult) -> u32 {
    result.counter()
}

/// Relies on serde_json::to_vec to encode a passkey's key material for
/// storage. A failure carries no data; the caller reports it.
#[verifier::external_body]
pub(crate) fn passkey_to_bytes(passkey: &Passkey) -> Result<Vec<u8>, ()> {
    serde_json::to_vec(passkey).map_err(|_| ())
}

/// Relies on serde_json::from_slice to decode stored key material back
/// into a passkey. A failure carries no data; the caller reports it.
#[verifier::external_body]
pub(crate) fn passkey_from_bytes(bytes: &Vec<u8>) -> Result<Passkey, ()> {
    serde_json::from_slice::<Passkey>(bytes.as_slice()).map_err(|_| ())
}

} // verus!
