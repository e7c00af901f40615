use onyx::auth::{AuthMethod, AuthSession, Authenticator, SessionKind, StoreMethod};
use onyx::error::{ErrorKind, OnyxError, StoreError};
use onyx::store::{auth_request_key, session_key, tolerate_missing};

fn logged_out() -> Authenticator {
    Authenticator::try_new("onyx", None)
}

#[test]
fn password_login_to_file_is_restored_as_file_password_session() {
    let mut auth = logged_out();
    let req = Authenticator::login("alice.example".to_string(), StoreMethod::File, Some("pw".to_string()));
    assert_eq!(req.method(), AuthMethod::AppPassword);
    let stored = auth.finish_login(&req, "did:plc:alice".to_string(), "ignored".to_string());
    assert_eq!(stored.did, "did:plc:alice");
    assert_eq!(stored.session_id, "session");
    assert_eq!(stored.store, StoreMethod::File);
    assert_eq!(stored.auth, AuthMethod::AppPassword);
    let plan = auth.restore().unwrap();
    assert_eq!(plan.kind, SessionKind::FilePassword);
    assert_eq!(plan.did, "did:plc:alice");
    assert_eq!(plan.session_id, "session");
}

#[test]
fn delegated_login_keeps_the_granted_session_id() {
    let mut auth = logged_out();
    let req = Authenticator::login("bob.example".to_string(), StoreMethod::Keyring, None);
    assert_eq!(req.method(), AuthMethod::OAuth);
    auth.finish_login(&req, "did:plc:bob".to_string(), "abc123".to_string());
    let info = auth.get_session_info().unwrap();
    assert_eq!(info.session_id, "abc123");
    assert_eq!(auth.restore().unwrap().kind, SessionKind::KeyringOAuth);
}

#[test]
fn second_login_replaces_the_pointer() {
    let mut auth = logged_out();
    let a = Authenticator::login("a".to_string(), StoreMethod::Keyring, Some("x".to_string()));
    auth.finish_login(&a, "did:plc:a".to_string(), String::new());
    let b = Authenticator::login("b".to_string(), StoreMethod::File, None);
    auth.finish_login(&b, "did:plc:b".to_string(), "s2".to_string());
    let info = auth.get_session_info().unwrap();
    assert_eq!(info.did, "did:plc:b");
    assert_eq!(info.session_id, "s2");
    assert_eq!(info.store, StoreMethod::File);
    assert_eq!(info.auth, AuthMethod::OAuth);
}

#[test]
fn logout_twice_reports_not_logged_in() {
    let stored = AuthSession {
        did: "did:plc:c".to_string(),
        session_id: "session".to_string(),
        store: StoreMethod::File,
        auth: AuthMethod::AppPassword,
    };
    let mut auth = Authenticator::try_new("onyx", Some(stored));
    assert!(auth.logout(Ok(())).is_ok());
    assert!(matches!(auth.logout(Err(StoreError::Backend("down".to_string()))), Err(OnyxError::NotLoggedIn)));
    assert!(matches!(auth.get_session_info(), Err(OnyxError::NotLoggedIn)));
}

#[test]
fn logout_tolerates_missing_credentials_but_not_failures() {
    let stored = AuthSession {
        did: "did:plc:d".to_string(),
        session_id: "session".to_string(),
        store: StoreMethod::Keyring,
        auth: AuthMethod::AppPassword,
    };
    let mut auth = Authenticator::try_new("onyx", Some(stored));
    let r = auth.logout(Err(StoreError::Unavailable("locked".to_string())));
    assert!(matches!(r, Err(OnyxError::SessionStore(_))));
    assert_eq!(auth.get_session_info().unwrap().did, "did:plc:d");
    assert!(auth.logout(Err(StoreError::Missing)).is_ok());
    assert!(matches!(auth.restore(), Err(OnyxError::NotLoggedIn)));
}

#[test]
fn restore_without_pointer_is_not_logged_in() {
    let auth = logged_out();
    assert!(matches!(auth.restore(), Err(OnyxError::NotLoggedIn)));
    assert!(matches!(auth.get_session_info(), Err(OnyxError::NotLoggedIn)));
}

#[test]
fn session_kinds_cover_every_pair() {
    let pairs = [
        (AuthMethod::OAuth, StoreMethod::Keyring, SessionKind::KeyringOAuth),
        (AuthMethod::OAuth, StoreMethod::File, SessionKind::FileOAuth),
        (AuthMethod::AppPassword, StoreMethod::Keyring, SessionKind::KeyringPassword),
        (AuthMethod::AppPassword, StoreMethod::File, SessionKind::FilePassword),
    ];
    for (a, s, k) in pairs {
        assert_eq!(SessionKind::of(a, s), k);
        assert_eq!(k.auth_method(), a);
        assert_eq!(k.store_method(), s);
    }
}

#[test]
fn credential_keys_are_composed() {
    assert_eq!(session_key("did:plc:e", "session"), "did:plc:e_session");
    assert_eq!(auth_request_key("xyz"), "authreq_xyz");
}

#[test]
fn missing_entries_count_as_deleted() {
    assert!(tolerate_missing(Err(StoreError::Missing)).is_ok());
    assert!(tolerate_missing(Ok(())).is_ok());
    assert!(matches!(tolerate_missing(Err(StoreError::Backend("x".to_string()))), Err(StoreError::Backend(_))));
}

#[test]
fn only_auth_errors_suggest_logging_in() {
    assert!(OnyxError::NotLoggedIn.suggests_login());
    assert!(OnyxError::RestoreFailed("expired".to_string()).suggests_login());
    assert!(!OnyxError::Io("disk".to_string()).suggests_login());
    assert_eq!(OnyxError::Parse("x".to_string()).kind(), ErrorKind::Parse);
    assert_eq!(OnyxError::Other("x".to_string()).kind(), ErrorKind::Other);
}

#[test]
fn refresh_failures_ask_for_a_new_login() {
    let e = SessionKind::FileOAuth.refresh_failure("expired");
    match &e {
        OnyxError::Auth(m) => assert_eq!(m, "OAuth token refresh failed: expired"),
        other => panic!("unexpected {:?}", other),
    }
    assert!(e.suggests_login());
    let p = SessionKind::KeyringPassword.refresh_failure("revoked");
    assert!(matches!(p, OnyxError::Auth(ref m) if m == "App password token refresh failed: revoked"));
    let t = SessionKind::transport_failure("timeout");
    assert!(!t.suggests_login());
}

#[test]
fn rejected_credentials_are_a_failed_restore() {
    let r: Result<u8, OnyxError> = Authenticator::restore_outcome(Err("token expired".to_string()));
    assert!(matches!(r, Err(OnyxError::RestoreFailed(ref m)) if m == "token expired"));
    assert!(r.unwrap_err().suggests_login());
    assert_eq!(Authenticator::restore_outcome::<u8>(Ok(3)).unwrap(), 3);
}
