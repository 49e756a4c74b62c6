use mihome_core::session::{
    select_stored, AutoLoginOutcome, FileAction, LegacyCredentials, SavedCredentials,
    SecureSession, SessionGuard, SessionPhase, StoredSession,
};

fn secure() -> SecureSession {
    SecureSession { username: "ann@example.com".to_string(), country: "de".to_string(), token: "tok-1".to_string() }
}

fn legacy() -> LegacyCredentials {
    LegacyCredentials { username: "ann@example.com".to_string(), country: "sg".to_string(), password: "pw".to_string() }
}

#[test]
fn secure_format_is_tried_first() {
    assert_eq!(select_stored(Some(secure()), Some(legacy())), Some(StoredSession::Secure(secure())));
    assert_eq!(select_stored(None, Some(legacy())), Some(StoredSession::Legacy(legacy())));
    assert_eq!(select_stored(None, None), None);
}

#[test]
fn secure_session_restores_to_verified() {
    let stored = select_stored(Some(secure()), None);
    let mut g = SessionGuard::new();
    assert!(g.begin_auto_login(&stored));
    assert_eq!(g.phase(), SessionPhase::Restored);
    assert!(g.is_logged_in());
    let out = g.finish_auto_login(stored.as_ref().unwrap(), Some(true), Some("tok-2".to_string()));
    assert_eq!(out, AutoLoginOutcome { logged_in: true, file: FileAction::Keep });
    assert_eq!(g.phase(), SessionPhase::Verified);
    assert_eq!(
        g.current_user(),
        Some(SavedCredentials { username: "ann@example.com".to_string(), country: "de".to_string() })
    );
}

#[test]
fn legacy_session_migrates_once() {
    let stored = select_stored(None, Some(legacy()));
    let mut g = SessionGuard::new();
    assert!(g.begin_auto_login(&stored));
    let out = g.finish_auto_login(stored.as_ref().unwrap(), Some(true), Some("tok-9".to_string()));
    let written = SecureSession {
        username: "ann@example.com".to_string(),
        country: "sg".to_string(),
        token: "tok-9".to_string(),
    };
    assert_eq!(out, AutoLoginOutcome { logged_in: true, file: FileAction::Write(written.clone()) });

    let again = select_stored(Some(written.clone()), None);
    let mut g2 = SessionGuard::new();
    assert!(g2.begin_auto_login(&again));
    let out2 = g2.finish_auto_login(again.as_ref().unwrap(), Some(true), Some("tok-10".to_string()));
    assert_eq!(out2, AutoLoginOutcome { logged_in: true, file: FileAction::Keep });
}

#[test]
fn legacy_session_without_exported_token_keeps_file() {
    let stored = StoredSession::Legacy(legacy());
    let mut g = SessionGuard::new();
    g.import(&stored);
    let out = g.finish_auto_login(&stored, Some(true), None);
    assert_eq!(out, AutoLoginOutcome { logged_in: true, file: FileAction::Keep });
}

#[test]
fn failed_probe_removes_file() {
    let stored = StoredSession::Secure(secure());
    let mut g = SessionGuard::new();
    g.import(&stored);
    let out = g.finish_auto_login(&stored, Some(false), None);
    assert_eq!(out, AutoLoginOutcome { logged_in: false, file: FileAction::Remove });
    assert_eq!(g.phase(), SessionPhase::Invalid);
    assert!(!g.is_logged_in());
    assert_eq!(g.current_user(), None);
}

#[test]
fn unusable_session_is_not_probed_and_file_kept() {
    let stored = StoredSession::Secure(secure());
    let mut g = SessionGuard::new();
    g.import(&stored);
    let out = g.finish_auto_login(&stored, None, None);
    assert_eq!(out, AutoLoginOutcome { logged_in: false, file: FileAction::Keep });
    assert_eq!(g.phase(), SessionPhase::Unauthenticated);
}

#[test]
fn no_stored_session_means_no_probe() {
    let mut g = SessionGuard::new();
    assert!(!g.begin_auto_login(&None));
    assert_eq!(g.phase(), SessionPhase::Unauthenticated);
}

#[test]
fn login_success_and_failure() {
    let mut g = SessionGuard::new();
    assert_eq!(g.country(), "cn");
    assert_eq!(g.login("bob".to_string(), Some("us".to_string()), Ok(()), true), Ok(true));
    assert_eq!(g.phase(), SessionPhase::Verified);
    assert_eq!(g.country(), "us");
    assert_eq!(
        g.current_user(),
        Some(SavedCredentials { username: "bob".to_string(), country: "us".to_string() })
    );
    assert_eq!(
        g.login("bob".to_string(), None, Err("bad password".to_string()), true),
        Err("bad password".to_string())
    );
    assert_eq!(g.phase(), SessionPhase::Unauthenticated);
    assert_eq!(g.current_user(), None);
    assert_eq!(g.country(), "us");
}

#[test]
fn login_without_persisting() {
    let mut g = SessionGuard::new();
    assert_eq!(g.login("bob".to_string(), None, Ok(()), false), Ok(false));
    assert_eq!(g.country(), "cn");
}

#[test]
fn set_country_resaves_only_a_live_session() {
    let mut g = SessionGuard::new();
    assert!(!g.set_country("de".to_string()));
    assert_eq!(g.country(), "de");
    g.login("bob".to_string(), None, Ok(()), false).unwrap();
    assert!(g.set_country("ru".to_string()));
    assert_eq!(g.current_user().unwrap().country, "ru");
}

#[test]
fn logout_resets_everything() {
    let mut g = SessionGuard::new();
    g.login("bob".to_string(), Some("us".to_string()), Ok(()), true).unwrap();
    g.logout();
    assert_eq!(g.phase(), SessionPhase::Unauthenticated);
    assert!(!g.is_logged_in());
    assert_eq!(g.country(), "cn");
    assert_eq!(g.current_user(), None);
}
