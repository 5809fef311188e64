use gui::config::{
    check_protected_path_removal, config_save_result_from_restart_result, config_saved_result, next_safe_mode,
    remove_entries, safe_mode_update_result, WatchedEntry, WatchedKind,
};
use gui::error::ErrorEnvelope;

fn entry(path: &str, kind: WatchedKind, settings: &str) -> WatchedEntry {
    WatchedEntry { path: path.to_string(), kind, settings: settings.to_string() }
}

#[test]
fn source_removal_restart_failure_is_reported_without_claiming_removal_failed() {
    let result = config_save_result_from_restart_result(Err(ErrorEnvelope::new("RESTART_FAILED", "daemon unavailable")));
    let warning = result.daemon_restart_warning.expect("restart warning should be present");
    assert!(warning.contains("saved versions were removed"));
    assert!(warning.contains("daemon unavailable"));
    assert!(!result.daemon_restarted);
}

#[test]
fn successful_restart_needs_no_warning() {
    let result = config_save_result_from_restart_result(Ok("restarted".to_string()));
    assert!(result.daemon_restarted);
    assert!(!result.daemon_restart_scheduled);
    assert_eq!(result.daemon_restart_warning, None);
    let saved = config_saved_result();
    assert!(saved.daemon_restart_scheduled && !saved.daemon_restarted);
}

#[test]
fn safe_mode_toggles_or_takes_the_requested_value() {
    assert!(next_safe_mode(None, false));
    assert!(!next_safe_mode(None, true));
    assert!(next_safe_mode(Some(true), true));
    let live = safe_mode_update_result(true, true);
    assert!(live.applied_live && live.warning.is_none());
    let deferred = safe_mode_update_result(false, false);
    assert!(!deferred.applied_live && deferred.warning.is_some());
}

#[test]
fn removing_a_protected_path_must_change_nothing_else() {
    let previous = vec![
        entry("/a", WatchedKind::Directory, "x"),
        entry("/b", WatchedKind::File, "y"),
    ];
    let requested = remove_entries(&previous, "/a", WatchedKind::Directory);
    assert_eq!(requested.len(), 1);
    assert_eq!(requested[0].path, "/b");
    assert!(check_protected_path_removal(&previous, &requested, "/a", WatchedKind::Directory, true).is_ok());

    let unknown = check_protected_path_removal(&previous, &previous, "/c", WatchedKind::File, true).unwrap_err();
    assert_eq!(unknown.code, "NOT_FOUND");
    let partial = check_protected_path_removal(&previous, &previous, "/a", WatchedKind::Directory, true).unwrap_err();
    assert_eq!(partial.code, "CONFLICT");
    let changed = vec![entry("/b", WatchedKind::File, "z")];
    let other = check_protected_path_removal(&previous, &changed, "/a", WatchedKind::Directory, true).unwrap_err();
    assert_eq!(other.code, "CONFLICT");
    assert!(check_protected_path_removal(&previous, &requested, "/a", WatchedKind::Directory, false).is_err());
}

#[test]
fn removal_matches_paths_component_by_component() {
    let previous = vec![
        entry("/data/photos/", WatchedKind::Directory, "x"),
        entry("/data//music", WatchedKind::Directory, "y"),
    ];
    let requested = remove_entries(&previous, "/data/photos", WatchedKind::Directory);
    assert_eq!(requested.len(), 1);
    assert_eq!(requested[0].path, "/data//music");
    assert!(check_protected_path_removal(&previous, &requested, "/data/photos", WatchedKind::Directory, true).is_ok());
    let kept = vec![entry("/data/music", WatchedKind::Directory, "y"), entry("/data/photos", WatchedKind::File, "z")];
    let partial = check_protected_path_removal(&previous, &kept, "/data/photos/", WatchedKind::Directory, true).unwrap_err();
    assert_eq!(partial.code, "CONFLICT");
}
