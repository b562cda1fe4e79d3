//! WebAuthn ceremonies: challenges for registration and authentication, and
//! the answers once a ceremony is complete.

use vstd::prelude::*;
use crate::random::random_in;

verus! {

/// A request to start a registration.
#[derive(Debug)]
pub struct RegisterStartRequest {
    pub phone: String,
    pub username: Option<String>,
}

/// The answer to a request to start a registration.
#[derive(Debug)]
pub struct RegisterStartResponse {
    pub success: bool,
    pub message: String,
    pub challenge: Option<String>,
}

/// A request to complete a registration.
#[derive(Debug)]
pub struct RegisterCompleteRequest {
    pub phone: String,
    pub credential_id: String,
    pub response: RegisterCompleteResponse,
}

/// What the authenticator returned for a registration.
#[derive(Debug)]
pub struct RegisterCompleteResponse {
    pub client_data_json: String,
    pub attestation_object: String,
}

/// The answer to a request to complete a registration.
#[derive(Debug)]
pub struct RegisterCompleteResponseResult {
    pub success: bool,
    pub message: String,
}

/// A request to start an authentication.
#[derive(Debug)]
pub struct AuthenticateStartRequest {
    pub phone: String,
}

/// The answer to a request to start an authentication.
#[derive(Debug)]
pub struct AuthenticateStartResponse {
    pub success: bool,
    pub message: String,
    pub challenge: Option<String>,
    pub credential_ids: Option<Vec<String>>,
}

/// A request to complete an authentication.
#[derive(Debug)]
pub struct AuthenticateCompleteRequest {
    pub phone: String,
    pub credential_id: String,
    pub response: AuthenticateCompleteResponse,
}

/// What the authenticator returned for an authentication.
#[derive(Debug)]
pub struct AuthenticateCompleteResponse {
    pub client_data_json: String,
    pub authenticator_data: String,
    pub signature: String,
    pub user_handle: Option<String>,
}

/// The answer to a request to complete an authentication.
#[derive(Debug)]
pub struct AuthenticateCompleteResponseResult {
    pub success: bool,
    pub message: String,
}

/// How many random bytes make a challenge.
pub const CHALLENGE_BYTES: usize = 32;

/// The bound below which each byte of a challenge is drawn.
pub const CHALLENGE_BYTE_BOUND: u32 = 255;

/// The bytes written in base64 with the URL-safe alphabet and without
/// padding. It stands for what the base64 crate computes.
pub uninterp spec fn base64_url_text(bytes: Seq<u8>) -> Seq<char>;

/// Encodes the bytes with `Engine::encode` of the base64 crate, on its engine
/// `general_purpose::URL_SAFE_NO_PAD`. The contract only names the text: the
/// same bytes always give the same text.
#[verifier::external_body]
fn base64_url(bytes: &Vec<u8>) -> (text: String)
    ensures
        text@ == base64_url_text(bytes@),
{
    base64::Engine::encode(&base64::engine::general_purpose::URL_SAFE_NO_PAD, bytes)
}

/// Whether `bytes` can be the bytes of a challenge.
pub open spec fn is_challenge_bytes(bytes: Seq<u8>) -> bool {
    &&& bytes.len() == CHALLENGE_BYTES
    &&& forall|i: int| 0 <= i < bytes.len() ==> #[trigger] bytes[i] < CHALLENGE_BYTE_BOUND
}

/// Whether `text` is a challenge: the encoding of some challenge bytes.
pub open spec fn is_challenge(text: Seq<char>) -> bool {
    exists|bytes: Seq<u8>| is_challenge_bytes(bytes) && text == #[trigger] base64_url_text(bytes)
}

/// The challenge that is made of the given bytes.
pub fn challenge_from(bytes: &Vec<u8>) -> (challenge: String)
    ensures
        challenge@ == base64_url_text(bytes@),
{
    base64_url(bytes)
}

/// A random challenge.
pub fn generate_challenge() -> (challenge: String)
    ensures
        is_challenge(challenge@),
{
    let mut bytes: Vec<u8> = Vec::new();
    while bytes.len() < CHALLENGE_BYTES
        invariant
            bytes@.len() <= CHALLENGE_BYTES,
            forall|i: int| 0 <= i < bytes@.len() ==> #[trigger] bytes@[i] < CHALLENGE_BYTE_BOUND,
        decreases CHALLENGE_BYTES - bytes@.len(),
    {
        let drawn = random_in(0, CHALLENGE_BYTE_BOUND);
        bytes.push(drawn as u8);
    }
    assert(is_challenge_bytes(bytes@));
    challenge_from(&bytes)
}

/// Starts a registration: the answer carries a fresh challenge.
pub fn register_start(_body: &RegisterStartRequest) -> (response: RegisterStartResponse)
    ensures
        response.success,
        response.message@ == "Registration challenge generated"@,
        response.challenge matches Some(challenge) && is_challenge(challenge@),
{
    RegisterStartResponse {
        success: true,
        message: "Registration challenge generated".to_owned(),
        challenge: Some(generate_challenge()),
    }
}

/// Completes a registration. Nothing is checked yet: it succeeds.
pub fn register_complete(_body: &RegisterCompleteRequest) -> (response: RegisterCompleteResponseResult)
    ensures
        response.success,
        response.message@ == "Registration completed successfully"@,
{
    RegisterCompleteResponseResult {
        success: true,
        message: "Registration completed successfully".to_owned(),
    }
}

/// Starts an authentication: the answer carries a fresh challenge and no
/// credentials.
pub fn authenticate_start(_body: &AuthenticateStartRequest) -> (response: AuthenticateStartResponse)
    ensures
        response.success,
        response.message@ == "Authentication challenge generated"@,
        response.challenge matches Some(challenge) && is_challenge(challenge@),
        response.credential_ids.is_none(),
{
    AuthenticateStartResponse {
        success: true,
        message: "Authentication challenge generated".to_owned(),
        challenge: Some(generate_challenge()),
        credential_ids: None,
    }
}

/// Completes an authentication. Nothing is checked yet: it succeeds.
pub fn authenticate_complete(_body: &AuthenticateCompleteRequest) -> (response:
    AuthenticateCompleteResponseResult)
    ensures
        response.success,
        response.message@ == "Authentication successful"@,
{
    AuthenticateCompleteResponseResult {
        success: true,
        message: "Authentication successful".to_owned(),
    }
}

} // verus!
