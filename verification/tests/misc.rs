use gui::access::{access_probe, DestinationProbe, WatchedProbe};
use gui::backup_run::{record_verification, simulation_result, ScrubCounts, SimulationSummary, StoredState};
use gui::backups::{list_backups_for_path, list_tracked_paths, TrackedFile};
use gui::destination::StoragePlace;
use gui::restore::{command_failure, config_load_error, file_list_limit, ListVersionFilesArgs, RestoreCommand};
use gui::safety::{clears_persisted_warning, finish_safety_removal, locate_watched_index, plan_safety_removal, WatchedLocation};
use gui::single_instance::{after_failed_lock_open, instance_cid, lock_file_name, lock_open_failure, LockRetry};
use gui::status::{append_reply_chunk, check_reply_not_empty, destination_dtos, ipc_timeout_seconds, status_error, DestinationStatus};
use gui::tray::{
    destination_issue, failed_health_snapshot, hardening_issue, last_sync_label_at, offline_tray_view, online_tray_view,
    plan_health_refresh, tray_severity, HealthRefresh, TrayHealthSnapshot, TraySeverity, TrayStatus,
};
use gui::ui_actions::{new_action_state, on_close_requested, on_menu_event, on_quit_answer, on_tray_event, MenuChoice, TrayInput, UiAction};
use gui::updates::{compare_versions, current_version, parse_version, update_message, UpdateFeed};
use std::cmp::Ordering;

#[test]
fn versions_compare_numerically_with_missing_parts_as_zero() {
    assert_eq!(parse_version("1.2.x"), vec![1, 2, 0]);
    assert_eq!(compare_versions("1.10.0", "1.9.9"), Ordering::Greater);
    assert_eq!(compare_versions("1.0", "1.0.0"), Ordering::Equal);
    assert_eq!(compare_versions("0.9", "1"), Ordering::Less);
    assert_eq!(current_version(None), "0.0.0");
    assert_eq!(current_version(Some("2.1.0")), "2.1.0");
}

#[test]
fn update_messages() {
    let feed = UpdateFeed { latest_version: "2.0.0".to_string(), notes: None, published_at: Some("today".to_string()) };
    assert_eq!(
        update_message("1.0.0", Some(feed), "/f.json", "now"),
        "Update available: 1.0.0 -> 2.0.0 (published today). Notes: No release notes provided."
    );
    assert_eq!(
        update_message("1.0.0", None, "/f.json", "now"),
        "Backup Sync 1.0.0. No update feed configured (checked /f.json at now)."
    );
}

#[test]
fn tray_severity_prefers_errors() {
    let status = TrayStatus { destination_paused: false, safe_mode: true, safety_warning: None, free_bytes: Some(10), last_run_ts: None };
    let health = TrayHealthSnapshot { startup_hardening_error: None, access_probe: None, destination_issues: vec![] };
    assert_eq!(tray_severity(&status, &health, 0), TraySeverity::Warning);
    let paused = TrayStatus { destination_paused: true, ..status };
    assert_eq!(tray_severity(&paused, &health, 0), TraySeverity::Error);
    assert_eq!(TraySeverity::Normal.max(TraySeverity::Warning), TraySeverity::Warning);
    assert_eq!(TraySeverity::Error.label(), "Error");
}

#[test]
fn tray_texts() {
    assert_eq!(last_sync_label_at(None, 100), "Last sync: Never");
    assert_eq!(last_sync_label_at(Some(0), 600), "Last sync: 10m ago");
    assert_eq!(last_sync_label_at(Some(0), 3 * 3600), "Last sync: 3h ago");
    let off = offline_tray_view();
    assert_eq!(off.status_line, "Status: Error (Offline)");
    let status = TrayStatus { destination_paused: false, safe_mode: false, safety_warning: None, free_bytes: None, last_run_ts: Some(0) };
    let health = TrayHealthSnapshot { startup_hardening_error: None, access_probe: None, destination_issues: vec![] };
    let view = online_tray_view(&status, &health, 100, None, 120);
    assert_eq!(view.status_line, "Status: Normal");
    assert!(view.tooltip.starts_with("Backup Sync • Online • Status: Normal"));
    assert_eq!(view.last_sync_line, "Last sync: 2m ago");
}

#[test]
fn health_refresh_plan() {
    assert_eq!(plan_health_refresh(None, 0, 60, false), HealthRefresh::Eager);
    assert_eq!(plan_health_refresh(Some(0), 60_000, 60, false), HealthRefresh::Background);
    assert_eq!(plan_health_refresh(Some(0), 59_999, 60, false), HealthRefresh::UseCached);
    assert_eq!(plan_health_refresh(Some(0), 60_000, 60, true), HealthRefresh::UseCached);
    assert_eq!(failed_health_snapshot(true).startup_hardening_error.as_deref(), Some("Safety checks: timed out"));
    assert_eq!(hardening_issue(Ok((false, "low".to_string()))).as_deref(), Some("Safety checks: low"));
    assert_eq!(hardening_issue(Ok((true, "ok".to_string()))), None);
    assert_eq!(destination_issue(Some("  ".to_string()), "/d", Ok((false, "full".to_string()))).as_deref(), Some("/d: full"));
    assert_eq!(destination_issue(Some(" Ext ".to_string()), "/d", Ok((false, "full".to_string()))).as_deref(), Some("Ext: full"));
}

#[test]
fn access_probe_classifies_paths() {
    let probe = access_probe(
        DestinationProbe::Created(Ok(5)),
        vec![("/a".to_string(), WatchedProbe::Readable), ("/b".to_string(), WatchedProbe::Missing)],
    );
    assert!(probe.destination_writable);
    assert_eq!(probe.destination_message, "Writable. Free space: 5 bytes");
    assert_eq!(probe.watched_ok, vec!["/a".to_string()]);
    assert_eq!(probe.watched_missing, vec!["/b".to_string()]);
    let unset = access_probe(DestinationProbe::Unset, vec![]);
    assert!(!unset.destination_writable);
}

#[test]
fn verification_and_simulation_results() {
    let mut state = StoredState::default();
    let r = record_verification(&mut state, &ScrubCounts { blobs_hashed: 10, hash_mismatches: 1, missing_blobs: 2, manifests_bad: 0 }, 9);
    assert_eq!((r.ok, r.bad), (9, 3));
    assert_eq!(state.last_verify_status.as_deref(), Some("issues_detected (full)"));
    assert_eq!(state.last_scrub_full_ts, Some(9));
    let sim = simulation_result(SimulationSummary {
        versions_would_create: 1, watched: 2, adds: 3, modifies: 4, deletes: 5, blobs_to_write: 6,
        bytes_to_write: 7, read_failures: 0, snapshot_errors: 0, items: 8, sample: vec![],
    });
    assert_eq!(sim.message, "would_create_versions=1/2 changes=+3 ~4 -5 blobs_to_write=6 bytes_to_write=7");
}

#[test]
fn tracked_files_lookup() {
    let files = vec![TrackedFile { path: "/a".to_string(), backups: vec!["/b/1".to_string()] }];
    assert_eq!(list_tracked_paths(&files), vec!["/a".to_string()]);
    assert_eq!(list_backups_for_path(&files, "/a").unwrap(), vec!["/b/1".to_string()]);
    assert_eq!(
        list_backups_for_path(&files, "/x").unwrap_err(),
        "gui::api::backup_api::list_backups_for_path no backups tracked for /x"
    );
}

#[test]
fn restore_limits_and_errors() {
    let args = ListVersionFilesArgs { source_path: "/s".to_string(), version_id: "v".to_string(), query: None, limit: None };
    assert_eq!(file_list_limit(&args), 200);
    let e = command_failure(RestoreCommand::RestoreFiles, "c", "disk");
    assert_eq!(e.code, "RESTORE_FILES_FAILED");
    assert!(e.message.starts_with("[cid=c] restore_files_cmd failed: disk"));
    let l = config_load_error(RestoreCommand::ListVersions, "c", "bad");
    assert!(l.message.starts_with("[cid=c] list_versions_cmd failed to load config: bad"));
}

#[test]
fn safety_removal_lookup() {
    let watched = vec![WatchedLocation { path: "/w".to_string(), resolved: Some("/real/w".to_string()), destination_id: "d".to_string() }];
    let places = vec![StoragePlace { id: "d".to_string(), path: "/dest".to_string() }];
    assert_eq!(locate_watched_index(&watched, "/link", &Some("/real/w".to_string())), Some(0));
    assert_eq!(plan_safety_removal("c", "/w", None, &watched, &places).unwrap(), (0, 0));
    assert_eq!(plan_safety_removal("c", "/nope", None, &watched, &places).unwrap_err().code, "WATCHED_NOT_FOUND");
    assert_eq!(plan_safety_removal("c", "/w", None, &watched, &vec![]).unwrap_err().code, "DEST_NOT_FOUND");
    assert!(finish_safety_removal("c", "/w", Ok(true)).is_ok());
    assert_eq!(finish_safety_removal("c", "/w", Ok(false)).unwrap_err().code, "SAFETY_NOT_PRESENT");
    assert_eq!(finish_safety_removal("c", "/w", Err("io".to_string())).unwrap_err().code, "SAFETY_REMOVE_FAILED");
    assert!(clears_persisted_warning(Some("/w".to_string()), "/w"));
    assert!(!clears_persisted_warning(None, "/w"));
}

#[test]
fn status_errors_and_replies() {
    assert_eq!(status_error("daemon IPC socket not found at x", "d").code, "DAEMON_OFFLINE");
    let e = status_error("timed out", "timed out: deadline");
    assert_eq!(e.code, "STATUS_UNAVAILABLE");
    assert!(e.message.starts_with("status::get_status failed to fetch status: timed out: deadline"));
    assert_eq!(ipc_timeout_seconds(0), 1);
    let mut buf = vec![1u8];
    assert!(append_reply_chunk(&mut buf, &[2, 3], 3).is_ok());
    assert_eq!(buf, vec![1, 2, 3]);
    assert_eq!(append_reply_chunk(&mut buf, &[4], 3).unwrap_err(), "status_api::read_bounded_to_end response exceeded 3 bytes");
    assert!(check_reply_not_empty(&vec![]).is_err());
    let dtos = destination_dtos(vec![
        DestinationStatus { id: "a".to_string(), label: None, path: "/a".to_string(), reachable: true, writable: true, free_bytes: Some(1), message: "m".to_string() },
        DestinationStatus { id: "b".to_string(), label: Some("B".to_string()), path: "/b".to_string(), reachable: false, writable: false, free_bytes: None, message: String::new() },
    ]);
    assert_eq!(dtos.len(), 2);
    assert_eq!(dtos[0].id, "a");
    assert_eq!(dtos[1].label.as_deref(), Some("B"));
}

#[test]
fn ui_reactions() {
    let mut st = new_action_state();
    assert!(matches!(on_tray_event(&st, TrayInput::DoubleClick), UiAction::ShowMainWindow));
    assert!(matches!(on_menu_event(&st, MenuChoice::Quit), UiAction::AskToQuit));
    assert!(matches!(on_close_requested(&st), UiAction::HideInsteadOfClosing));
    assert!(matches!(on_quit_answer(&mut st, false), UiAction::Nothing));
    assert!(matches!(on_quit_answer(&mut st, true), UiAction::Exit));
    assert!(matches!(on_quit_answer(&mut st, true), UiAction::Nothing));
    assert!(matches!(on_menu_event(&st, MenuChoice::Show), UiAction::Nothing));
    assert!(matches!(on_close_requested(&st), UiAction::AllowClose));
}

#[test]
fn lock_file_retries() {
    assert!(matches!(after_failed_lock_open(0, 10), LockRetry::RetryAfter(100)));
    assert!(matches!(after_failed_lock_open(1, 10), LockRetry::RetryAfter(200)));
    assert!(matches!(after_failed_lock_open(2, 10), LockRetry::GiveUp));
    assert!(matches!(after_failed_lock_open(0, 3_001), LockRetry::GiveUp));
    assert_eq!(lock_file_name("com.x"), "com.x.single_instance.lock");
    assert_eq!(
        lock_open_failure(None, "busy"),
        "tauri_plugin_single_instance::open_lock_file_with_retry failed opening lock file <unknown> after retries: busy"
    );
    assert_eq!(instance_cid("single-instance", 42), "single-instance-42");
}

#[test]
fn clock_offsets_become_signed_milliseconds_and_seconds() {
    assert_eq!(gui::correlation::epoch_millis(Ok(1_500)), 1_500);
    assert_eq!(gui::correlation::epoch_millis(Err(1_500)), -1_500);
    assert_eq!(gui::correlation::epoch_millis(Ok(u128::MAX)), i64::MAX);
    assert_eq!(gui::tray::seconds_of_millis(1_999), 1);
    assert_eq!(gui::tray::seconds_of_millis(-1), -1);
    assert_eq!(gui::tray::seconds_of_millis(-1_000), -1);
    assert_eq!(gui::tray::seconds_of_millis(-1_001), -2);
}
