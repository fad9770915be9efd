//! The messages of the login exchange.

use vstd::prelude::*;

verus! {

/// The secret that proves who started a login.
pub type CodeVerifier = Vec<u8>;

/// The code that a finished login is redeemed with.
pub type AuthCode = String;

/// The request that starts a login.
#[derive(Debug)]
pub struct AuthRequest {
    pub response_type: String,
    pub code_challenge: String,
    pub code_challenge_method: String,
    pub scope: String,
    pub client_id: String,
    pub redirect_uri: String,
}

/// The answer to a started login: what to show and where to poll.
#[derive(Debug)]
pub struct AuthResponse {
    pub auto_start_token: String,
    pub qr_data: Vec<String>,
    pub qr_code: String,
    pub code: AuthCode,
    pub next_poll_url: String,
}

/// The state of a login that is being polled.
#[derive(Debug)]
pub struct AuthStatus {
    pub status: String,
    pub progress_status: String,
    pub message_code: String,
    pub qr_code: String,
    pub ssn: Option<String>,
    pub retry_after: Option<u32>,
    pub next_poll_url: Option<String>,
}

/// The request that redeems a finished login for tokens.
#[derive(Debug)]
pub struct AuthTokenRequest {
    pub client_id: String,
    pub code: String,
    pub code_verifier: String,
    pub grant_type: String,
    pub redirect_uri: String,
}

/// The tokens of a session.
#[derive(Debug)]
pub struct AuthTokenResponse {
    pub access_token: String,
    pub expires_in: u32,
    pub id_token: String,
    pub scope: String,
    pub token_type: String,
}

/// The request that ends a session.
#[derive(Debug)]
pub struct RevokeRequest {
    pub token: String,
    pub token_type_hint: String,
}

} // verus!
