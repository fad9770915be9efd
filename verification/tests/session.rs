use kivinge::error::Error;
use kivinge::session::{extract_claims, make, Session, SessionManager, StoredSession, UserInfo};
use std::cell::Cell;

fn ada() -> UserInfo {
    UserInfo {
        kivra_user_id: "user-1".to_string(),
        name: "Ada Lovelace".to_string(),
        first_name: "Ada".to_string(),
        last_name: "Lovelace".to_string(),
        ssn: "181512100000".to_string(),
        email: "ada@example.invalid".to_string(),
    }
}

fn session() -> Session {
    Session { user_info: ada(), access_token: "access".to_string(), id_token: "a.e30.c".to_string() }
}

#[test]
fn claims_are_the_decoded_second_section() {
    assert_eq!(extract_claims("head.eyJuYW1lIjoiQWRhIn0.sig").unwrap(), b"{\"name\":\"Ada\"}".to_vec());
    assert_eq!(extract_claims("x.e30").unwrap(), b"{}".to_vec());
    assert_eq!(extract_claims("x.e30.y.z").unwrap(), b"{}".to_vec());
    assert_eq!(extract_claims(".-_--.").unwrap(), vec![0xfb, 0xff, 0xbe]);
    assert_eq!(extract_claims("only.").unwrap(), Vec::<u8>::new());
    assert_eq!(extract_claims("ä.e30.ö").unwrap(), b"{}".to_vec());
}

#[test]
fn a_token_of_one_section_is_malformed() {
    for token in ["", "nodots", "e30"] {
        match extract_claims(token) {
            Err(Error::AppError(m)) => {
                assert_eq!(m, "Malformed JWT returned by server: Too few sections")
            }
            other => panic!("unexpected {:?}", other),
        }
    }
}

#[test]
fn claims_that_are_no_base64_are_refused() {
    for token in ["a.!!!.c", "a.e30=.c", "a.e3.c", "a.e 30.c", "a.+/+/.c"] {
        match extract_claims(token) {
            Err(Error::SessionError(m)) => assert_eq!(m, "base64 decode failed"),
            other => panic!("unexpected {:?} for {}", other, token),
        }
    }
}

#[test]
fn make_builds_the_session_from_the_claims() {
    let seen = Cell::new(Vec::new());
    let made = make("access".to_string(), "h.eyJuYW1lIjoiQWRhIn0.s".to_string(), |claims: Vec<u8>| {
        seen.set(claims);
        Ok(ada())
    })
    .unwrap();
    assert_eq!(seen.take(), b"{\"name\":\"Ada\"}".to_vec());
    assert_eq!(made.access_token, "access");
    assert_eq!(made.id_token, "h.eyJuYW1lIjoiQWRhIn0.s");
    assert_eq!(made.user_info.name, "Ada Lovelace");
    assert_eq!(made.user_info.kivra_user_id, "user-1");
}

#[test]
fn make_hands_on_a_failure_to_parse() {
    let made = make("access".to_string(), "h.e30.s".to_string(), |_claims: Vec<u8>| {
        Err(Error::SessionError("missing field `name`".to_string()))
    });
    match made {
        Err(Error::SessionError(m)) => assert_eq!(m, "missing field `name`"),
        other => panic!("unexpected {:?}", other),
    }
}

#[test]
fn make_does_not_parse_a_malformed_token() {
    let called = Cell::new(false);
    let made = make("access".to_string(), "nodots".to_string(), |_claims: Vec<u8>| {
        called.set(true);
        Ok(ada())
    });
    assert!(matches!(made, Err(Error::AppError(_))));
    assert!(!called.get());
}

#[test]
fn stored_session_keeps_the_tokens() {
    let stored = StoredSession::from_session(session());
    assert_eq!(stored.access_token, "access");
    assert_eq!(stored.id_token, "a.e30.c");
    let copy = stored.clone();
    let back = copy.into_session(|claims: Vec<u8>| {
        assert_eq!(claims, b"{}".to_vec());
        Ok(ada())
    })
    .unwrap();
    assert_eq!(back.access_token, "access");
    assert_eq!(back.user_info.email, "ada@example.invalid");
}

#[test]
fn manager_starts_without_a_session() {
    let manager = SessionManager::new();
    assert!(manager.session().is_none());
    assert!(SessionManager::default().session().is_none());
}

#[test]
fn manager_loads_once() {
    let loads = Cell::new(0u32);
    let mut manager = SessionManager::new();
    let load = || -> Result<Option<Session>, Error> {
        loads.set(loads.get() + 1);
        Ok(Some(session()))
    };
    let first = manager.get_or_load_session(load).unwrap().unwrap();
    assert_eq!(first.access_token, "access");
    let second = manager.get_or_load_session(load).unwrap().unwrap();
    assert_eq!(second.user_info.name, "Ada Lovelace");
    assert_eq!(loads.get(), 1);
    assert_eq!(manager.session().map(|s| s.id_token.clone()), Some("a.e30.c".to_string()));
}

#[test]
fn manager_asks_again_while_nothing_is_stored() {
    let loads = Cell::new(0u32);
    let mut manager = SessionManager::new();
    let load = || -> Result<Option<Session>, Error> {
        loads.set(loads.get() + 1);
        Ok(None)
    };
    assert!(manager.get_or_load_session(load).unwrap().is_none());
    assert!(manager.get_or_load_session(load).unwrap().is_none());
    assert_eq!(loads.get(), 2);
    let failed = manager
        .get_or_load_session(|| -> Result<Option<Session>, Error> { Err(Error::IOError("denied".to_string())) });
    assert!(matches!(failed, Err(Error::IOError(_))));
    assert!(manager.session().is_none());
}

#[test]
fn manager_installs_and_clears() {
    let mut manager = SessionManager::new();
    manager.install(session());
    assert_eq!(manager.session().map(|s| s.access_token.clone()), Some("access".to_string()));
    let held = manager
        .get_or_load_session(|| -> Result<Option<Session>, Error> { panic!("must not load") })
        .unwrap();
    assert!(held.is_some());
    manager.clear();
    assert!(manager.session().is_none());
}
