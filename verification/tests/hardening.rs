use gui::destination::{StoragePlace, WatchedSource};
use gui::hardening::{
    enabled_indices, hardening_report, missing_destination, probe_file_error, probe_file_name, required_destinations,
    required_free_bytes, resolve_request, snapshot_hardening, snapshot_not_checked, snapshot_probe_timeout,
    start_store_probe, store_probe_step, summarize_watched, watched_probe_issue, DestinationHardening,
    HardeningCheckRequest, ProbeFileFailure, ProbeFileStep, ProbedPath, SnapshotOutcome, StoreProbeAction, StoreProbeEvent,
    WatchedPathProbe,
};

fn source(path: &str, enabled: bool, dest: &str) -> WatchedSource {
    WatchedSource { path: path.to_string(), enabled, destination_id: dest.to_string() }
}

#[test]
fn request_defaults_to_no_optional_checks() {
    let r = resolve_request(None);
    assert!(!r.check_snapshots && !r.require_snapshots);
    let q = resolve_request(Some(HardeningCheckRequest { check_snapshots: true, require_snapshots: true }));
    assert!(q.check_snapshots && q.require_snapshots);
}

#[test]
fn required_space_is_the_larger_setting() {
    assert_eq!(required_free_bytes(Some(10), 20), 20);
    assert_eq!(required_free_bytes(Some(30), 20), 30);
    assert_eq!(required_free_bytes(None, 5), 5);
}

#[test]
fn required_destinations_are_sorted_and_unique() {
    let watched = vec![source("/a", true, "zeta"), source("/b", true, "alpha"), source("/c", true, "zeta"), source("/d", false, "beta")];
    let places = vec![
        StoragePlace { id: "alpha".to_string(), path: "/first".to_string() },
        StoragePlace { id: "alpha".to_string(), path: "/second".to_string() },
    ];
    let req = required_destinations(&watched, &places);
    assert_eq!(req.len(), 2);
    assert_eq!(req[0].id, "alpha");
    assert_eq!(req[0].path.as_deref(), Some("/second"));
    assert_eq!(req[1].id, "zeta");
    assert_eq!(req[1].path, None);
    assert_eq!(enabled_indices(&watched), vec![0, 1, 2]);
    let missing = missing_destination("zeta", 7);
    assert_eq!(missing.message, "missing destination config for watched path");
    assert!(!missing.ok);
}

#[test]
fn watched_paths_are_sorted_into_readable_and_issues() {
    let probed = vec![
        ProbedPath { path: "/ok".to_string(), kind: "Directory".to_string(), probe: WatchedPathProbe::Readable },
        ProbedPath { path: "/gone".to_string(), kind: "File".to_string(), probe: WatchedPathProbe::Missing },
        ProbedPath { path: "/locked".to_string(), kind: "Directory".to_string(), probe: WatchedPathProbe::ReadDirFailed("denied".to_string()) },
    ];
    let (ok, issues) = summarize_watched(probed);
    assert_eq!(ok, vec!["/ok".to_string()]);
    assert_eq!(issues.len(), 2);
    assert_eq!(issues[0].issue, "missing");
    assert_eq!(issues[1].issue, "read_dir failed: denied");
    assert_eq!(watched_probe_issue(WatchedPathProbe::OpenFailed("x".to_string())).as_deref(), Some("open failed: x"));
}

fn finish(a: StoreProbeAction) -> DestinationHardening {
    match a {
        StoreProbeAction::Finish(d) => d,
        _ => panic!("expected a finished probe"),
    }
}

#[test]
fn a_store_probe_succeeds_only_after_every_step() {
    let (mut p, a) = start_store_probe("main", "/m", 100);
    assert!(matches!(a, StoreProbeAction::InspectPath));
    assert!(matches!(store_probe_step(&mut p, StoreProbeEvent::PathInspected { present: true, is_file: false }), StoreProbeAction::CreateDestination));
    assert!(matches!(store_probe_step(&mut p, StoreProbeEvent::DestinationCreated(Ok(()))), StoreProbeAction::ReadFreeSpace));
    assert!(matches!(store_probe_step(&mut p, StoreProbeEvent::FreeSpace(Ok(500))), StoreProbeAction::CreateStore));
    let root = "/m/.backup_sync/v1".to_string();
    assert!(matches!(store_probe_step(&mut p, StoreProbeEvent::StoreCreated { store_root: root, result: Ok(()) }), StoreProbeAction::WriteProbe));
    let d = finish(store_probe_step(&mut p, StoreProbeEvent::ProbeWritten(Ok(()))));
    assert!(d.ok);
    assert_eq!(d.message, "ok");
    assert_eq!(d.free_bytes, Some(500));
}

#[test]
fn a_store_probe_stops_at_the_first_problem() {
    let d = finish(start_store_probe("e", "", 1).1);
    assert_eq!(d.message, "destination path is empty");
    let (mut p, _) = start_store_probe("f", "/f", 1);
    let d = finish(store_probe_step(&mut p, StoreProbeEvent::PathInspected { present: true, is_file: true }));
    assert_eq!(d.message, "destination points to a file; choose a folder");
    let (mut p, _) = start_store_probe("s", "/s", 100);
    store_probe_step(&mut p, StoreProbeEvent::PathInspected { present: false, is_file: false });
    store_probe_step(&mut p, StoreProbeEvent::DestinationCreated(Ok(())));
    let d = finish(store_probe_step(&mut p, StoreProbeEvent::FreeSpace(Ok(99))));
    assert!(!d.ok);
    assert_eq!(d.free_bytes, Some(99));
    assert_eq!(d.message, "insufficient free space (need >= 100 bytes)");
    let (mut p, _) = start_store_probe("r", "/r", 1);
    store_probe_step(&mut p, StoreProbeEvent::PathInspected { present: true, is_file: false });
    store_probe_step(&mut p, StoreProbeEvent::DestinationCreated(Ok(())));
    let d = finish(store_probe_step(&mut p, StoreProbeEvent::FreeSpace(Err("io".to_string()))));
    assert_eq!(d.message, "cannot read free space: io");
    assert_eq!(d.free_bytes, None);
}

#[test]
fn probe_file_names_and_errors() {
    assert_eq!(probe_file_name(-5), ".hardening_probe_-5.bin");
    assert_eq!(probe_file_error(ProbeFileStep::Write, "/p", "e"), "cannot write probe file /p: e");
}

#[test]
fn snapshot_outcomes() {
    assert_eq!(snapshot_not_checked().message, "not checked");
    assert_eq!(snapshot_probe_timeout(30, 0), 1);
    assert_eq!(snapshot_probe_timeout(5, 10), 5);
    assert_eq!(snapshot_probe_timeout(50, 10), 10);
    assert!(snapshot_hardening(SnapshotOutcome::Supported, true).supported);
    assert_eq!(snapshot_hardening(SnapshotOutcome::Unavailable(None), true).message,
        "unavailable (required): snapshot unavailable on this platform/path");
    assert_eq!(snapshot_hardening(SnapshotOutcome::Failed("vss".to_string()), false).message, "unavailable: vss");
    assert_eq!(snapshot_hardening(SnapshotOutcome::NoWatchedPaths, false).message, "no watched paths configured");
}

#[test]
fn the_report_is_ok_only_when_everything_passed() {
    let good = DestinationHardening { id: "a".to_string(), path: "/a".to_string(), ok: true, free_bytes: Some(1), required_free_bytes: 1, message: "ok".to_string() };
    let bad = DestinationHardening { ok: false, message: "x".to_string(), ..good_clone(&good) };
    let r = hardening_report(vec![], vec![], vec![good_clone(&good)], snapshot_not_checked(), false);
    assert!(r.ok);
    assert_eq!(r.message, "ok");
    let r = hardening_report(vec![], vec![], vec![bad], snapshot_not_checked(), true);
    assert!(!r.ok);
    assert_eq!(r.message, "destination not writable or low space; snapshots required but unavailable");
}

fn good_clone(d: &DestinationHardening) -> DestinationHardening {
    DestinationHardening {
        id: d.id.clone(),
        path: d.path.clone(),
        ok: d.ok,
        free_bytes: d.free_bytes,
        required_free_bytes: d.required_free_bytes,
        message: d.message.clone(),
    }
}

#[test]
fn a_failed_probe_write_names_the_step_and_file() {
    let (mut p, _) = start_store_probe("m", "/m", 1);
    store_probe_step(&mut p, StoreProbeEvent::PathInspected { present: true, is_file: false });
    store_probe_step(&mut p, StoreProbeEvent::DestinationCreated(Ok(())));
    store_probe_step(&mut p, StoreProbeEvent::FreeSpace(Ok(10)));
    store_probe_step(&mut p, StoreProbeEvent::StoreCreated { store_root: "/m/s".to_string(), result: Ok(()) });
    let failure = ProbeFileFailure { step: ProbeFileStep::Remove, probe_path: "/m/s/.p".to_string(), error: "busy".to_string() };
    let d = finish(store_probe_step(&mut p, StoreProbeEvent::ProbeWritten(Err(failure))));
    assert!(!d.ok);
    assert_eq!(d.message, "cannot remove probe file /m/s/.p: busy");
}
