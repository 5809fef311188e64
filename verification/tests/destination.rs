use gui::destination::{
    check_destination, check_source_freshness, copy_space_check, copy_source_problem, copy_target_problem,
    destination_input_problem, integrity_check, latest_created, macos_mount_root, missing_macos_mount_root,
    paths_refer_to_same_location, plan_relocation, promotion_precheck, relocated_layout, relocation_step,
    sources_to_check, stage_expects, start_relocation, start_store_walk, swap_main_with_secondary, EntryKind,
    FolderProbe, Relocation, RelocationAction, RelocationEvent, RelocationStage, StorageLayout, StoragePlace,
    WatchedSource, DaemonFailure, open_destination_target, find_place,
};

fn layout(paths: &[(&str, &str)]) -> StorageLayout {
    StorageLayout {
        places: paths.iter().map(|(id, p)| StoragePlace { id: id.to_string(), path: p.to_string() }).collect(),
        backup_root: paths[0].1.to_string(),
    }
}

#[test]
fn swaps_only_paths_and_preserves_ids_source_mappings_and_files() {
    let cfg = layout(&[("main", "/root/main"), ("secondary", "/root/secondary")]);
    let next = swap_main_with_secondary(&cfg, 1).expect("role swap should validate");
    assert_eq!(next.places[0].id, "main");
    assert_eq!(next.places[1].id, "secondary");
    assert_eq!(next.places[0].path, "/root/secondary");
    assert_eq!(next.places[1].path, "/root/main");
    assert_eq!(next.backup_root, "/root/secondary");
    let back = swap_main_with_secondary(&next, 1).unwrap();
    assert_eq!(back.places[0].path, "/root/main");
    assert_eq!(back.places[1].path, "/root/secondary");
}

#[test]
fn only_an_existing_secondary_can_be_promoted() {
    let cfg = layout(&[("main", "/m"), ("s", "/s")]);
    for bad in [0usize, 2] {
        let e = swap_main_with_secondary(&cfg, bad).unwrap_err();
        assert_eq!(e, "Only an existing secondary backup location can become Main storage.");
    }
}

#[test]
fn rejects_a_secondary_copy_older_than_main_without_touching_either_store() {
    let main = latest_created(&vec![150, 200]);
    let secondary = latest_created(&vec![100]);
    assert_eq!(main, Some(200));
    let e = check_source_freshness("\"/src\"", main, secondary).unwrap_err();
    assert!(e.contains("behind Main storage"));
    assert!(check_source_freshness("\"/src\"", Some(5), Some(5)).is_ok());
    assert!(check_source_freshness("\"/src\"", None, None).is_ok());
    let none = check_source_freshness("\"/src\"", Some(5), None).unwrap_err();
    assert_eq!(none, "The selected secondary location has no recovery version for \"/src\".");
}

#[test]
fn promotion_needs_two_distinct_available_folders_and_a_clean_scrub() {
    assert!(promotion_precheck(2, 1, true, true, false).is_ok());
    assert_eq!(promotion_precheck(0, 1, true, true, false).unwrap_err(), "Main storage is not configured.");
    assert!(promotion_precheck(2, 1, true, true, true).unwrap_err().contains("same folder"));
    assert!(integrity_check(0, 0, 0).is_ok());
    assert_eq!(
        integrity_check(1, 0, 2).unwrap_err(),
        "The selected secondary location has 3 integrity issue(s); storage roles were not changed."
    );
    assert!(integrity_check(u64::MAX, 1, 1).unwrap_err().contains(&u64::MAX.to_string()));
}

#[test]
fn refuses_to_overwrite_a_nonempty_new_storage_folder() {
    let e = copy_target_problem(true, "/old", "/new").expect("nonempty target must fail");
    assert!(e.contains("must be empty"));
    assert!(copy_target_problem(false, "/old", "/old/inner").unwrap().contains("nested"));
    assert!(copy_target_problem(false, "/a/old", "/a").is_some());
    assert!(copy_target_problem(false, "/old", "/new").is_none());
    assert!(copy_source_problem(false, false, false).unwrap().contains("missing"));
    assert!(copy_source_problem(true, true, false).unwrap().contains("points to a file"));
    assert!(copy_source_problem(true, true, true).is_none());
}

#[test]
fn copy_needs_room_for_the_store_and_the_buffer() {
    assert_eq!(copy_space_check(20, 0, 20), Ok(20));
    assert_eq!(
        copy_space_check(20, 5, 24).unwrap_err(),
        "The new storage location needs at least 25 bytes free; only 24 bytes are available."
    );
    assert_eq!(copy_space_check(u64::MAX, 5, u64::MAX), Ok(u64::MAX));
}

#[test]
fn store_walk_counts_files_and_refuses_links() {
    let mut walk = start_store_walk("/old");
    let dir = walk.next_directory().unwrap();
    assert_eq!(dir, "/old");
    walk.visit("/old/nested".to_string(), EntryKind::Directory, 0).unwrap();
    walk.visit("/old/index.json".to_string(), EntryKind::File, 8).unwrap();
    walk.visit("/old/nested/blob".to_string(), EntryKind::File, 12).unwrap();
    assert_eq!(walk.files.len(), 2);
    assert_eq!(walk.total_bytes, 20);
    assert_eq!(walk.next_directory().as_deref(), Some("/old/nested"));
    assert!(walk.visit("/old/l".to_string(), EntryKind::Symlink, 0).is_err());
}

#[test]
fn candidate_folder_checks() {
    assert_eq!(destination_input_problem("  ").unwrap().message, "Pick a backup destination.");
    assert!(destination_input_problem("/").unwrap().message.contains("filesystem root"));
    assert!(destination_input_problem("/data/backups").is_none());
    let ok = check_destination("/data/backups", FolderProbe::FreeSpace(1234));
    assert!(ok.writable);
    assert_eq!(ok.free_bytes, Some(1234));
    assert_eq!(ok.message, "Writable. Free space: 1234 bytes");
    let file = check_destination("/data/file", FolderProbe::IsFile);
    assert!(!file.writable);
    assert_eq!(file.message, "Destination points to a file; choose a folder.");
    let mount = check_destination("/Volumes/Ext/b", FolderProbe::MountMissing("/Volumes/Ext".to_string()));
    assert_eq!(mount.message, "Destination drive is not mounted at /Volumes/Ext. Reconnect it and try again.");
}

#[test]
fn mount_roots_are_found_under_volumes() {
    assert_eq!(macos_mount_root("/Volumes/Ext/backups").as_deref(), Some("/Volumes/Ext"));
    assert_eq!(macos_mount_root("//Volumes/./Ext").as_deref(), Some("/Volumes/Ext"));
    assert_eq!(macos_mount_root("/Volumes"), None);
    assert_eq!(macos_mount_root("/Volumes/../x"), None);
    assert_eq!(macos_mount_root("/Users/me"), None);
    assert_eq!(macos_mount_root("Volumes/Ext"), None);
    assert_eq!(missing_macos_mount_root("/Volumes/Ext/b", true), None);
    assert_eq!(missing_macos_mount_root("/Volumes/Ext/b", false).as_deref(), Some("/Volumes/Ext"));
}

#[test]
fn same_location_by_path_or_resolution() {
    assert!(paths_refer_to_same_location("/a/b", "/a/b/", None, None));
    assert!(!paths_refer_to_same_location("/a", "/b", None, None));
    assert!(paths_refer_to_same_location("/a", "/b", Some("/r".to_string()), Some("/r".to_string())));
}

#[test]
fn relocation_requests_are_checked() {
    let cfg = layout(&[("main", "/m"), ("s", "/s")]);
    assert_eq!(plan_relocation(&cfg, "x", "/n", &vec![false, false]).unwrap_err().code, "NOT_FOUND");
    assert_eq!(plan_relocation(&cfg, "main", "/m/", &vec![true, false]).unwrap_err().code, "INVALID_INPUT");
    assert_eq!(plan_relocation(&cfg, "main", "/", &vec![false, false]).unwrap_err().code, "INVALID_INPUT");
    assert_eq!(plan_relocation(&cfg, "s", "/m", &vec![true, false]).unwrap_err().code, "CONFLICT");
    let promote = plan_relocation(&cfg, "main", "/s", &vec![false, true]).unwrap();
    assert_eq!((promote.index, promote.existing), (0, Some(1)));
    let mv = plan_relocation(&cfg, "s", "/n", &vec![false, false]).unwrap();
    assert_eq!((mv.index, mv.existing), (1, None));
}

fn drive(rel: &mut Relocation, event: RelocationEvent) -> RelocationAction {
    assert!(stage_expects(&rel.stage, &event));
    relocation_step(rel, event)
}

#[test]
fn a_move_saves_paused_copies_activates_and_then_removes_the_old_folder() {
    let cfg = layout(&[("main", "/m"), ("s", "/s")]);
    let plan = plan_relocation(&cfg, "s", "/n", &vec![false, false]).unwrap();
    let (mut rel, first) = start_relocation(cfg, plan, "/n".to_string());
    assert!(matches!(first, RelocationAction::SaveConfig { paused: true, .. }));
    assert!(matches!(drive(&mut rel, RelocationEvent::Saved(Ok(()))), RelocationAction::PauseDaemon));
    match drive(&mut rel, RelocationEvent::DaemonPaused(Ok(()))) {
        RelocationAction::CopyStore { from, to } => assert_eq!((from.as_str(), to.as_str()), ("/s", "/n")),
        _ => panic!("expected a copy"),
    }
    match drive(&mut rel, RelocationEvent::Copied(Ok((2, 20)))) {
        RelocationAction::SaveConfig { layout, paused } => {
            assert!(!paused);
            assert_eq!(layout.places[1].path, "/n");
            assert_eq!(layout.places[1].id, "s");
            assert_eq!(layout.backup_root, "/m");
        }
        _ => panic!("expected a save"),
    }
    assert!(matches!(drive(&mut rel, RelocationEvent::Saved(Ok(()))), RelocationAction::RestartDaemon));
    match drive(&mut rel, RelocationEvent::Restarted(Ok(()))) {
        RelocationAction::RemoveOldLocation(p) => assert_eq!(p, "/s"),
        _ => panic!("expected removal"),
    }
    match drive(&mut rel, RelocationEvent::OldRemoved(Ok(()))) {
        RelocationAction::Succeed(s) => {
            assert_eq!(s.operation, "moved_to_new_location");
            assert_eq!((s.files_moved, s.bytes_moved, s.old_location_removed), (2, 20, true));
            assert!(s.warning.is_none());
        }
        _ => panic!("expected success"),
    }
    assert!(matches!(rel.stage, RelocationStage::Finished));
}

#[test]
fn a_failed_copy_rolls_back_and_keeps_the_old_folder() {
    let cfg = layout(&[("main", "/m")]);
    let plan = plan_relocation(&cfg, "main", "/n", &vec![false]).unwrap();
    let (mut rel, _) = start_relocation(cfg, plan, "/n".to_string());
    drive(&mut rel, RelocationEvent::Saved(Ok(())));
    drive(&mut rel, RelocationEvent::DaemonPaused(Err(DaemonFailure {
        summary: "status_api::set_safe_mode daemon IPC socket not found at \"/tmp/s\"".to_string(),
        detail: "socket not found".to_string(),
    })));
    match drive(&mut rel, RelocationEvent::Copied(Err("disk full".to_string()))) {
        RelocationAction::RollbackThenFail(e) => {
            assert_eq!(e.code, "STORAGE_MOVE_FAILED");
            assert!(e.message.starts_with("New storage could not be copied and verified; the old location is unchanged: disk full"));
        }
        _ => panic!("expected rollback"),
    }
}

#[test]
fn a_refused_restart_restores_the_roles() {
    let cfg = layout(&[("main", "/m"), ("s", "/s")]);
    let plan = plan_relocation(&cfg, "main", "/s", &vec![false, true]).unwrap();
    let (mut rel, _) = start_relocation(cfg, plan, "/s".to_string());
    drive(&mut rel, RelocationEvent::Saved(Ok(())));
    assert!(matches!(drive(&mut rel, RelocationEvent::DaemonPaused(Ok(()))), RelocationAction::VerifySecondary(1)));
    match drive(&mut rel, RelocationEvent::SecondaryVerified(Ok(3))) {
        RelocationAction::SaveConfig { layout, .. } => {
            assert_eq!(layout.places[0].path, "/s");
            assert_eq!(layout.backup_root, "/s");
        }
        _ => panic!("expected a save"),
    }
    drive(&mut rel, RelocationEvent::Saved(Ok(())));
    assert!(matches!(drive(&mut rel, RelocationEvent::Restarted(Err("timeout".to_string()))), RelocationAction::RollbackAndRestart));
    match drive(&mut rel, RelocationEvent::RollbackFinished { saved: true, restarted: true }) {
        RelocationAction::Fail(e) => {
            assert_eq!(e.code, "ACTIVATION_FAILED");
            assert!(e.message.starts_with(
                "The selected copy verified correctly, but the background service did not accept the role change: timeout. The original storage roles were restored."
            ));
        }
        _ => panic!("expected failure"),
    }
}

#[test]
fn a_daemon_that_refuses_to_pause_stops_the_move() {
    let cfg = layout(&[("main", "/m")]);
    let plan = plan_relocation(&cfg, "main", "/n", &vec![false]).unwrap();
    let (mut rel, _) = start_relocation(cfg, plan, "/n".to_string());
    drive(&mut rel, RelocationEvent::Saved(Ok(())));
    let a = drive(&mut rel, RelocationEvent::DaemonPaused(Err(DaemonFailure {
        summary: "daemon returned ok=false".to_string(),
        detail: "daemon returned ok=false".to_string(),
    })));
    assert!(matches!(a, RelocationAction::RestoreConfigThenFail(ref e) if e.code == "STATUS_UNAVAILABLE"));
}

#[test]
fn sources_are_checked_once_each() {
    let watched = vec![
        WatchedSource { path: "/src".to_string(), enabled: true, destination_id: "main".to_string() },
        WatchedSource { path: "/src/".to_string(), enabled: true, destination_id: "main".to_string() },
        WatchedSource { path: "/off".to_string(), enabled: false, destination_id: "main".to_string() },
        WatchedSource { path: "/other".to_string(), enabled: true, destination_id: "s".to_string() },
    ];
    assert_eq!(sources_to_check(&watched, "main"), vec!["/src".to_string()]);
}

#[test]
fn moving_main_storage_moves_the_backup_root() {
    let cfg = layout(&[("main", "/m"), ("s", "/s")]);
    let moved = relocated_layout(&cfg, 0, "/n");
    assert_eq!(moved.backup_root, "/n");
    assert_eq!(moved.places[0].path, "/n");
    assert_eq!(moved.places[1].path, "/s");
}

#[test]
fn opening_a_destination_needs_its_folder() {
    let cfg = layout(&[("main", "/m"), ("s", "/s")]);
    assert_eq!(find_place(&cfg.places, "s"), Some(1));
    assert_eq!(open_destination_target(&cfg.places, "s", &vec![true, true]).unwrap(), 1);
    let gone = open_destination_target(&cfg.places, "x", &vec![true, true]).unwrap_err();
    assert!(gone.message.starts_with("Storage location no longer exists."));
    let missing = open_destination_target(&cfg.places, "s", &vec![true, false]).unwrap_err();
    assert!(missing.message.starts_with("The configured storage folder is missing or unavailable."));
}

#[test]
fn a_copy_passes_only_with_the_source_digest() {
    assert!(gui::destination::copied_file_check("\"nested/blob\"", "abc", "abc").is_ok());
    assert_eq!(
        gui::destination::copied_file_check("\"nested/blob\"", "abc", "abd").unwrap_err(),
        "Verification failed for copied backup file \"nested/blob\"."
    );
}
