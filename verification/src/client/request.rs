//! The addresses and the bodies of the requests to the remote side.

use crate::error::ClientError;
use crate::model::auth::{AuthCode, AuthRequest, AuthTokenRequest, CodeVerifier, RevokeRequest};
use crate::model::Config;
use vstd::prelude::*;
use vstd::string::*;

verus! {

/// How many bytes a code verifier has.
pub const VERIFIER_LENGTH: usize = 48;

/// The code challenge that belongs to a code verifier, as the `pkce` crate
/// derives it.
pub uninterp spec fn challenge_text(verifier: Seq<u8>) -> Seq<char>;

/// Why bytes are no text.
#[verifier::external_type_specification]
#[verifier::external_body]
pub struct ExFromUtf8Error(std::string::FromUtf8Error);

/// `String::from_utf8` gives the text that the bytes encode, and fails
/// exactly where they are not valid UTF-8.
pub assume_specification[ String::from_utf8 ](bytes: Vec<u8>) -> (text: Result<
    String,
    std::string::FromUtf8Error,
>)
    ensures
        match text {
            Ok(t) => vstd::utf8::valid_utf8(bytes@) && t@ == vstd::utf8::decode_utf8(bytes@),
            Err(_) => !vstd::utf8::valid_utf8(bytes@),
        },
;

/// Whether `byte` may stand in a code verifier: an ASCII letter or digit,
/// or one of `-`, `.`, `_` and `~`.
pub open spec fn is_verifier_byte(byte: u8) -> bool {
    ||| 65 <= byte <= 90
    ||| 97 <= byte <= 122
    ||| 48 <= byte <= 57
    ||| byte == 45
    ||| byte == 46
    ||| byte == 95
    ||| byte == 126
}

/// Whether `verifier` is made of `length` bytes that may stand in a code
/// verifier.
pub open spec fn is_verifier(verifier: Seq<u8>, length: nat) -> bool {
    &&& verifier.len() == length
    &&& forall|i: int| 0 <= i < verifier.len() ==> is_verifier_byte(#[trigger] verifier[i])
}

/// `pkce::code_verifier` draws `length` bytes at random, each from the
/// letters, the digits and `-`, `.`, `_`, `~`. It panics for a length outside
/// 43 to 128, which the precondition leaves out. Which bytes are drawn is
/// left open.
#[verifier::external_body]
pub(crate) fn random_verifier(length: usize) -> (verifier: Vec<u8>)
    requires
        43 <= length <= 128,
    ensures
        is_verifier(verifier@, length as nat),
{
    pkce::code_verifier(length)
}

/// A code verifier is text: bytes that may stand in one are valid UTF-8, so
/// `token_request` does not fail on a secret that `start_request` drew.
pub proof fn lemma_verifier_is_text(verifier: Seq<u8>)
    requires
        forall|i: int| 0 <= i < verifier.len() ==> is_verifier_byte(#[trigger] verifier[i]),
    ensures
        vstd::utf8::valid_utf8(verifier),
{
    assert forall|i: int| 0 <= i < verifier.len() implies #[trigger]
        vstd::utf8::is_leading_byte_width_1(verifier[i]) by {
        assert(is_verifier_byte(verifier[i]));
    }
    assert(verifier.subrange(0, 0) =~= Seq::<u8>::empty());
    assert(vstd::utf8::partial_valid_utf8(verifier, 0));
    vstd::utf8::partial_valid_utf8_extend_ascii_block(verifier, 0, verifier.len() as int);
    assert(verifier.subrange(0, verifier.len() as int) =~= verifier);
}

/// `pkce::code_challenge` derives the challenge from the verifier. The
/// challenge depends on the verifier alone, which is all that is claimed
/// here.
#[verifier::external_body]
fn challenge_for(verifier: &[u8]) -> (challenge: String)
    ensures
        challenge@ == challenge_text(verifier@),
{
    pkce::code_challenge(verifier)
}

/// Where the mailbox is served.
pub const API_URL: &'static str = "https://app.api.kivra.com";

/// Where the login service publishes its settings.
pub const ACCOUNTS_URL: &'static str = "https://accounts.kivra.com";

/// The address of the settings of the login service.
pub fn config_url() -> (url: String)
    ensures
        url@ == ACCOUNTS_URL@ + "/config.json"@,
{
    String::from_str(ACCOUNTS_URL).concat("/config.json")
}

/// The address at which a login is started.
pub fn authorize_url() -> (url: String)
    ensures
        url@ == API_URL@ + "/v2/oauth2/authorize"@,
{
    String::from_str(API_URL).concat("/v2/oauth2/authorize")
}

/// The address behind a poll path that the remote side handed out.
pub fn poll_url(path: &str) -> (url: String)
    ensures
        url@ == API_URL@ + path@,
{
    String::from_str(API_URL).concat(path)
}

/// The address at which a finished login is redeemed.
pub fn token_url() -> (url: String)
    ensures
        url@ == API_URL@ + "/v2/oauth2/token"@,
{
    String::from_str(API_URL).concat("/v2/oauth2/token")
}

/// The address at which a session is ended.
pub fn revoke_url() -> (url: String)
    ensures
        url@ == API_URL@ + "/v2/oauth2/token/revoke"@,
{
    String::from_str(API_URL).concat("/v2/oauth2/token/revoke")
}

/// The address of the listing of a user's mailbox.
pub fn inbox_url(user_id: &str) -> (url: String)
    ensures
        url@ == API_URL@ + "/v3/user/"@ + user_id@ + "/content"@,
{
    String::from_str(API_URL).concat("/v3/user/").concat(user_id).concat("/content")
}

/// The address of the details of one message.
pub fn item_url(user_id: &str, item_key: &str) -> (url: String)
    ensures
        url@ == API_URL@ + "/v3/user/"@ + user_id@ + "/content/"@ + item_key@,
{
    String::from_str(API_URL).concat("/v3/user/").concat(user_id).concat("/content/").concat(
        item_key,
    )
}

/// The address at which a message is marked as read.
pub fn view_url(user_id: &str, item_key: &str) -> (url: String)
    ensures
        url@ == API_URL@ + "/v2/user/"@ + user_id@ + "/content/"@ + item_key@ + "/view"@,
{
    String::from_str(API_URL).concat("/v2/user/").concat(user_id).concat("/content/").concat(
        item_key,
    ).concat("/view")
}

/// The address of the bytes of one attachment.
pub fn download_url(user_id: &str, item_key: &str, attachment_key: &str) -> (url: String)
    ensures
        url@ == API_URL@ + "/v1/user/"@ + user_id@ + "/content/"@ + item_key@ + "/file/"@
            + attachment_key@ + "/raw"@,
{
    String::from_str(API_URL).concat("/v1/user/").concat(user_id).concat("/content/").concat(
        item_key,
    ).concat("/file/").concat(attachment_key).concat("/raw")
}

impl AuthRequest {
    /// The request that starts a login for the default client of `config`,
    /// bound to `challenge`.
    pub fn for_config(config: &Config, challenge: String) -> (request: AuthRequest)
        ensures
            request.client_id == config.oauth_default_client_id,
            request.redirect_uri == config.oauth_default_redirect_uri,
            request.code_challenge == challenge,
            request.response_type@ == "bankid_all"@,
            request.code_challenge_method@ == "S256"@,
            request.scope@ == "openid profile"@,
    {
        AuthRequest {
            client_id: config.oauth_default_client_id.clone(),
            response_type: String::from_str("bankid_all"),
            code_challenge: challenge,
            code_challenge_method: String::from_str("S256"),
            scope: String::from_str("openid profile"),
            redirect_uri: config.oauth_default_redirect_uri.clone(),
        }
    }
}

/// The request that starts a login with the secret `verifier`: it goes to
/// the default client of `config` and carries the challenge that belongs to
/// `verifier`.
pub fn start_request_with(config: &Config, verifier: &CodeVerifier) -> (request: AuthRequest)
    ensures
        request.client_id == config.oauth_default_client_id,
        request.redirect_uri == config.oauth_default_redirect_uri,
        request.code_challenge@ == challenge_text(verifier@),
        request.response_type@ == "bankid_all"@,
        request.code_challenge_method@ == "S256"@,
        request.scope@ == "openid profile"@,
{
    AuthRequest::for_config(config, challenge_for(verifier.as_slice()))
}

/// A fresh secret of `VERIFIER_LENGTH` bytes and the request that starts a
/// login with it.
pub fn start_request(config: &Config) -> (started: (CodeVerifier, AuthRequest))
    ensures
        is_verifier(started.0@, VERIFIER_LENGTH as nat),
        started.1.client_id == config.oauth_default_client_id,
        started.1.redirect_uri == config.oauth_default_redirect_uri,
        started.1.code_challenge@ == challenge_text(started.0@),
        started.1.response_type@ == "bankid_all"@,
        started.1.code_challenge_method@ == "S256"@,
        started.1.scope@ == "openid profile"@,
{
    let verifier: Vec<u8> = random_verifier(VERIFIER_LENGTH);
    let request: AuthRequest = start_request_with(config, &verifier);
    (verifier, request)
}

/// The request that redeems `auth_code` for tokens. The verifier travels
/// as text, so one that is not valid UTF-8 is refused.
pub fn token_request(config: &Config, auth_code: AuthCode, verifier: CodeVerifier) -> (request:
    Result<AuthTokenRequest, ClientError>)
    ensures
        match request {
            Ok(r) => {
                &&& vstd::utf8::valid_utf8(verifier@)
                &&& r.code_verifier@ == vstd::utf8::decode_utf8(verifier@)
                &&& r.client_id == config.oauth_default_client_id
                &&& r.redirect_uri == config.oauth_default_redirect_uri
                &&& r.code == auth_code
                &&& r.grant_type@ == "authorization_code"@
            },
            Err(e) => !vstd::utf8::valid_utf8(verifier@) && e is FromUtf8Error,
        },
{
    match String::from_utf8(verifier) {
        Ok(text) => Ok(AuthTokenRequest::for_config(config, auth_code, text)),
        Err(e) => Err(ClientError::FromUtf8Error(e.to_string())),
    }
}

impl AuthTokenRequest {
    /// The request that redeems `code` for tokens, with the verifier that
    /// belongs to the login.
    pub fn for_config(config: &Config, code: String, code_verifier: String) -> (request:
        AuthTokenRequest)
        ensures
            request.client_id == config.oauth_default_client_id,
            request.redirect_uri == config.oauth_default_redirect_uri,
            request.code == code,
            request.code_verifier == code_verifier,
            request.grant_type@ == "authorization_code"@,
    {
        AuthTokenRequest {
            client_id: config.oauth_default_client_id.clone(),
            code,
            code_verifier,
            grant_type: String::from_str("authorization_code"),
            redirect_uri: config.oauth_default_redirect_uri.clone(),
        }
    }
}

impl RevokeRequest {
    /// The request that ends the session of `access_token`.
    pub fn for_token(access_token: &str) -> (request: RevokeRequest)
        ensures
            request.token@ == access_token@,
            request.token_type_hint@ == "access_token"@,
    {
        RevokeRequest {
            token: String::from_str(access_token),
            token_type_hint: String::from_str("access_token"),
        }
    }
}

} // verus!
