//! Sessions: the tokens of a login and the user they belong to.

use crate::error::Error;
use crate::text::{find_from, position_from, push_char_run};
use vstd::prelude::*;
use vstd::string::*;

verus! {

/// What unpadded URL-safe Base64 text decodes to, as the `base64` crate
/// decodes it; `None` where the text is not valid.
pub uninterp spec fn base64url_decoded(text: Seq<char>) -> Option<Seq<u8>>;

/// Why `base64` refused a text.
#[verifier::external_type_specification]
#[verifier::external_body]
pub struct ExDecodeError(base64::DecodeError);

/// `Engine::decode` of `base64`'s `URL_SAFE_NO_PAD` engine: the bytes that
/// the text stands for, or an error where it is not valid unpadded URL-safe
/// Base64. The outcome depends on the text alone, which is all that is
/// claimed here.
#[verifier::external_body]
fn decode_base64url(text: &str) -> (decoded: Result<Vec<u8>, base64::DecodeError>)
    ensures
        match decoded {
            Ok(bytes) => base64url_decoded(text@) == Some(bytes@),
            Err(_) => base64url_decoded(text@) is None,
        },
{
    base64::Engine::decode(&base64::engine::general_purpose::URL_SAFE_NO_PAD, text)
}

/// The second of the sections that dots divide `token` into; `None` where
/// `token` holds no dot and so has one section only.
pub open spec fn spec_claims_text(token: Seq<char>) -> Option<Seq<char>> {
    let first = position_from(token, '.', 0);
    if first >= token.len() {
        None
    } else {
        Some(token.subrange(first + 1, position_from(token, '.', first + 1)))
    }
}

/// The user a session belongs to.
#[derive(Debug)]
pub struct UserInfo {
    pub kivra_user_id: String,
    pub name: String,
    pub first_name: String,
    pub last_name: String,
    pub ssn: String,
    pub email: String,
}

/// A login: the user and the two tokens.
#[derive(Debug)]
pub struct Session {
    pub user_info: UserInfo,
    pub access_token: String,
    pub id_token: String,
}

/// What of a session is kept on disk.
#[derive(Debug)]
pub struct StoredSession {
    pub access_token: String,
    pub id_token: String,
}

impl Clone for UserInfo {
    fn clone(&self) -> (copy: Self)
        ensures
            copy == *self,
    {
        UserInfo {
            kivra_user_id: self.kivra_user_id.clone(),
            name: self.name.clone(),
            first_name: self.first_name.clone(),
            last_name: self.last_name.clone(),
            ssn: self.ssn.clone(),
            email: self.email.clone(),
        }
    }
}

impl Clone for Session {
    fn clone(&self) -> (copy: Self)
        ensures
            copy == *self,
    {
        Session {
            user_info: self.user_info.clone(),
            access_token: self.access_token.clone(),
            id_token: self.id_token.clone(),
        }
    }
}

impl Clone for StoredSession {
    fn clone(&self) -> (copy: Self)
        ensures
            copy == *self,
    {
        StoredSession { access_token: self.access_token.clone(), id_token: self.id_token.clone() }
    }
}

/// Whether `made` is what `make` owes for these tokens when the claims,
/// once decoded, parse to `parsed`.
pub open spec fn session_of(
    access_token: String,
    id_token: String,
    parsed: Result<UserInfo, Error>,
    made: Result<Session, Error>,
) -> bool {
    match parsed {
        Ok(user_info) => made == Ok::<Session, Error>(
            Session { user_info, access_token, id_token },
        ),
        Err(e) => made == Err::<Session, Error>(e),
    }
}

/// The claims of an identity token as bytes: the second dot-divided section,
/// decoded from unpadded URL-safe Base64. A token of one section is
/// malformed; a section that is no such Base64 is a session error.
pub fn extract_claims(id_token: &str) -> (claims: Result<Vec<u8>, Error>)
    ensures
        match spec_claims_text(id_token@) {
            None => claims matches Err(Error::AppError(m)) && m@
                == "Malformed JWT returned by server: Too few sections"@,
            Some(text) => match base64url_decoded(text) {
                None => claims matches Err(Error::SessionError(m)) && m@
                    == "base64 decode failed"@,
                Some(bytes) => claims matches Ok(v) && v@ == bytes,
            },
        },
{
    let n: usize = id_token.unicode_len();
    let first: usize = find_from(id_token, '.', 0);
    if first >= n {
        return Err(
            Error::AppError(
                String::from_str("Malformed JWT returned by server: Too few sections"),
            ),
        );
    }
    let start: usize = first + 1;
    let end: usize = find_from(id_token, '.', start);
    let mut section: String = String::new();
    push_char_run(&mut section, id_token, start, end);
    assert(section@ =~= id_token@.subrange(start as int, end as int));
    match decode_base64url(section.as_str()) {
        Ok(bytes) => Ok(bytes),
        Err(_) => Err(Error::SessionError(String::from_str("base64 decode failed"))),
    }
}

/// The session for a pair of tokens. The user is read from the claims of
/// the identity token: `parse_claims` gets the claims as decoded bytes and
/// says who they name. Fails where the token is malformed, where its claims
/// are no Base64, or where `parse_claims` fails, with that failure.
pub fn make<F: FnOnce(Vec<u8>) -> Result<UserInfo, Error>>(
    access_token: String,
    id_token: String,
    parse_claims: F,
) -> (made: Result<Session, Error>)
    requires
        forall|claims: Vec<u8>| call_requires(parse_claims, (claims,)),
    ensures
        match spec_claims_text(id_token@) {
            None => made matches Err(Error::AppError(m)) && m@
                == "Malformed JWT returned by server: Too few sections"@,
            Some(text) => match base64url_decoded(text) {
                None => made matches Err(Error::SessionError(m)) && m@
                    == "base64 decode failed"@,
                Some(bytes) => exists|claims: Vec<u8>, parsed: Result<UserInfo, Error>|
                    claims@ == bytes && call_ensures(parse_claims, (claims,), parsed)
                        && session_of(access_token, id_token, parsed, made),
            },
        },
{
    let claims: Vec<u8> = match extract_claims(id_token.as_str()) {
        Ok(claims) => claims,
        Err(e) => {
            return Err(e);
        },
    };
    let ghost handed = claims;
    let parsed: Result<UserInfo, Error> = parse_claims(claims);
    let made: Result<Session, Error> = match parsed {
        Ok(user_info) => Ok(Session { user_info, access_token, id_token }),
        Err(e) => Err(e),
    };
    assert(call_ensures(parse_claims, (handed,), parsed) && session_of(
        access_token,
        id_token,
        parsed,
        made,
    ));
    made
}

impl StoredSession {
    /// What is kept of `session`: its two tokens.
    pub fn from_session(session: Session) -> (stored: StoredSession)
        ensures
            stored.access_token == session.access_token,
            stored.id_token == session.id_token,
    {
        StoredSession { access_token: session.access_token, id_token: session.id_token }
    }

    /// The session that these tokens stand for; see `make`.
    pub fn into_session<F: FnOnce(Vec<u8>) -> Result<UserInfo, Error>>(self, parse_claims: F) -> (made:
        Result<Session, Error>)
        requires
            forall|claims: Vec<u8>| call_requires(parse_claims, (claims,)),
        ensures
            match spec_claims_text(self.id_token@) {
                None => made matches Err(Error::AppError(m)) && m@
                    == "Malformed JWT returned by server: Too few sections"@,
                Some(text) => match base64url_decoded(text) {
                    None => made matches Err(Error::SessionError(m)) && m@
                        == "base64 decode failed"@,
                    Some(bytes) => exists|claims: Vec<u8>, parsed: Result<UserInfo, Error>|
                        claims@ == bytes && call_ensures(parse_claims, (claims,), parsed)
                            && session_of(self.access_token, self.id_token, parsed, made),
                },
            },
    {
        make(self.access_token, self.id_token, parse_claims)
    }
}

/// Holds the session of the running program once there is one.
#[derive(Debug)]
pub struct SessionManager {
    session: Option<Session>,
}

impl SessionManager {
    /// The session held, if any.
    pub closed spec fn spec_session(&self) -> Option<Session> {
        self.session
    }

    /// A manager that holds no session.
    pub fn new() -> (manager: SessionManager)
        ensures
            manager.spec_session() is None,
    {
        SessionManager { session: None }
    }

    /// The session held, if any.
    pub fn session(&self) -> (held: Option<&Session>)
        ensures
            match held {
                Some(s) => self.spec_session() == Some(*s),
                None => self.spec_session() is None,
            },
    {
        self.session.as_ref()
    }

    /// Holds `session` from now on.
    pub fn install(&mut self, session: Session)
        ensures
            final(self).spec_session() == Some(session),
    {
        self.session = Some(session);
    }

    /// Forgets the session.
    pub fn clear(&mut self)
        ensures
            final(self).spec_session() is None,
    {
        self.session = None;
    }

    /// The session held; where none is held, what `load` finds, which is then
    /// held from now on. `load` is not called where a session is held. A
    /// failure of `load` is handed on and nothing is held.
    pub fn get_or_load_session<F: FnOnce() -> Result<Option<Session>, Error>>(
        &mut self,
        load: F,
    ) -> (found: Result<Option<Session>, Error>)
        requires
            call_requires(load, ()),
        ensures
            old(self).spec_session() is Some ==> found == Ok::<Option<Session>, Error>(
                old(self).spec_session(),
            ) && final(self).spec_session() == old(self).spec_session(),
            old(self).spec_session() is None ==> call_ensures(load, (), found) && match found {
                Ok(loaded) => final(self).spec_session() == loaded,
                Err(_) => final(self).spec_session() is None,
            },
    {
        match &self.session {
            Some(session) => {
                return Ok(Some(session.clone()));
            },
            None => {},
        }
        match load() {
            Ok(Some(session)) => {
                self.session = Some(session.clone());
                Ok(Some(session))
            },
            Ok(None) => Ok(None),
            Err(e) => Err(e),
        }
    }
}

impl Default for SessionManager {
    fn default() -> (manager: SessionManager)
        ensures
            manager.spec_session() is None,
    {
        SessionManager::new()
    }
}

} // verus!
