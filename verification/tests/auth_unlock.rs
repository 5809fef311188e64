use gui::auth::{auth_status, constant_time_eq, lock_session, unlock_session, SessionAuth};
use gui::security::{cid, ensure_session_unlocked};

#[test]
fn cid_prefix_changes() {
    let a = cid("auth", None, 0);
    let b = cid("auth", None, 1);
    assert!(a.starts_with("auth-"), "auth_unlock::cid_prefix_changes missing prefix");
    assert_ne!(a, b, "auth_unlock::cid_prefix_changes expected unique cids");
}

#[test]
fn incoming_correlation_id_is_kept() {
    assert_eq!(cid("auth", Some("given-id".to_string()), 7), "given-id");
}

#[test]
fn unlock_then_expire() {
    let mut auth = SessionAuth::new();
    assert!(!auth.is_unlocked(1_000));
    let msg = unlock_session("secret", Ok("secret".to_string()), None, &mut auth, 1_000, 60, 0).unwrap();
    assert_eq!(msg, "Session unlocked for 60 seconds.");
    assert!(auth.is_unlocked(1_000));
    assert!(auth.is_unlocked(60_999));
    assert!(!auth.is_unlocked(61_000));
    assert_eq!(auth.seconds_left(1_000), Some(60));
}

#[test]
fn wrong_passcode_keeps_session_locked() {
    let mut auth = SessionAuth::new();
    let err = unlock_session("guess", Ok("secret".to_string()), Some("cid-1".to_string()), &mut auth, 5, 60, 1)
        .unwrap_err();
    assert!(err.message.contains("invalid passphrase for cid cid-1"));
    assert!(!auth.is_unlocked(5));
}

#[test]
fn lock_locks_immediately() {
    let mut auth = SessionAuth::new();
    unlock_session("pw", Ok("pw".to_string()), None, &mut auth, 0, 600, 2).unwrap();
    lock_session(Ok("pw".to_string()), &mut auth).unwrap();
    assert!(!auth.is_unlocked(1));
    assert_eq!(auth.seconds_left(1), None);
}

#[test]
fn missing_passphrase_is_reported() {
    let auth = SessionAuth::new();
    assert!(auth_status(Err("not set".to_string()), &auth, 0).is_err());
    assert!(auth_status(Ok("   ".to_string()), &auth, 0).is_err());
    assert_eq!(auth_status(Ok("pw".to_string()), &auth, 0).unwrap(), (false, None));
}

#[test]
fn locked_session_refuses_sensitive_commands() {
    let auth = SessionAuth::new();
    let err = ensure_session_unlocked(&auth, Ok("pw".to_string()), 0, Some("c-1".to_string()), 3).unwrap_err();
    assert_eq!(err.code, "AUTH_LOCKED");
}

#[test]
fn constant_time_eq_compares_content() {
    assert!(constant_time_eq("abc", "abc"));
    assert!(!constant_time_eq("abc", "abd"));
    assert!(!constant_time_eq("abc", "ab"));
}

#[test]
fn missing_or_blank_passphrase_is_reported_before_the_lock() {
    let auth = SessionAuth::new();
    let unset = ensure_session_unlocked(&auth, Err("not set".to_string()), 0, None, 0).unwrap_err();
    assert_eq!(unset.code, "AUTH_MISSING");
    let blank = ensure_session_unlocked(&auth, Ok("  ".to_string()), 0, None, 0).unwrap_err();
    assert_eq!(blank.code, "AUTH_MISSING");
    let locked = ensure_session_unlocked(&auth, Ok("pw".to_string()), 0, None, 12).unwrap_err();
    assert!(locked.message.contains("locked for cid auth-"));
    assert!(locked.message.contains("-12; unlock required"));
}
