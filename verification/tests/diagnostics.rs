use gui::diagnostics::{
    diagnostics_primary_text, doctor_destination, doctor_report, exclusive_file_name, health_config_path, health_report,
    recent_activity_lines, status_snapshot_text, ActivityLine, DiagnosticsFacts, DoctorFacts, HealthFacts,
    IncompleteFileGuard,
};

fn health_facts() -> HealthFacts {
    HealthFacts {
        generated: "2026-01-01 00:00:00 UTC".to_string(),
        config_path: "~/config.json".to_string(),
        state_path: "state.json".to_string(),
        backup_root: "/backups".to_string(),
        watched_count: 2,
        last_error_debug: "None".to_string(),
        status: "ok".to_string(),
    }
}

#[test]
fn health_report_uses_product_identity() {
    let report = health_report(&health_facts());
    assert!(report.starts_with("# Backup Sync Health Report\n"));
}

#[test]
fn health_report_lists_each_fact() {
    let report = health_report(&health_facts());
    assert_eq!(
        report,
        "# Backup Sync Health Report\nGenerated: 2026-01-01 00:00:00 UTC\nConfig path: ~/config.json\nState path: state.json\nBackup destination: /backups\nWatched entries: 2\nLast error: None\n\nStatus snapshot:\nok"
    );
    assert_eq!(health_config_path(Err("no home".to_string())), "backup::verify::build_health_report config path unavailable: no home");
    assert_eq!(status_snapshot_text("ctx", Err("offline".to_string())), "ctx status unavailable: offline");
}

#[test]
fn exclusive_names_use_sixteen_hex_digits() {
    assert_eq!(exclusive_file_name("BackupSync-logs", 0xabc, "txt"), "BackupSync-logs-0000000000000abc.txt");
    assert_eq!(exclusive_file_name("s", u64::MAX, "zip"), "s-ffffffffffffffff.zip");
    assert_ne!(exclusive_file_name("s", 1, "zip"), exclusive_file_name("s", 2, "zip"));
}

#[test]
fn guard_removes_until_committed() {
    let mut g = IncompleteFileGuard::new("/tmp/x".to_string());
    assert!(g.needs_cleanup());
    g.commit();
    assert!(!g.needs_cleanup());
}

#[test]
fn recent_activity_is_newest_first_and_capped() {
    let items: Vec<ActivityLine> = (0..25).map(|i| ActivityLine { path: format!("/f{i}"), bytes: i as u64, ts: -(i as i64) }).collect();
    let lines = recent_activity_lines(&items);
    assert_eq!(lines.len(), 20);
    assert_eq!(lines[0], "/f24 • 24 bytes • -24");
    assert_eq!(lines[19], "/f5 • 5 bytes • -5");
}

#[test]
fn primary_text_sections() {
    let facts = DiagnosticsFacts {
        generated: "g".to_string(),
        config_path: "c".to_string(),
        state_path: "s".to_string(),
        log_path: "l".to_string(),
        last_error_debug: "Some(\"boom\")".to_string(),
        last_verify_ts: Some(5),
        last_verify_issues: None,
        recent_activity_count: 2,
    };
    let text = diagnostics_primary_text(&facts, &vec!["a".to_string(), "b".to_string()]);
    assert_eq!(
        text,
        "# Backup Sync Diagnostics\nGenerated: g\n\n## Paths\nConfig file: c\nState file: s\nLog file: l\n\n## State summary\nLast error: Some(\"boom\")\nLast verify: Some(5) (issues: None)\nRecent activity: 2 items\n\n## Recent activity (latest 20)\na\nb"
    );
}

#[test]
fn doctor_report_flags_problems() {
    let facts = DoctorFacts {
        generated: "now".to_string(),
        config_path: "c".to_string(),
        state_path: "s".to_string(),
        destination: doctor_destination(None, "/root".to_string()),
        destinations_count: 0,
        watched: vec![("/a".to_string(), true), ("/b".to_string(), false)],
        free_space: Ok(10),
        min_free_space_bytes: Some(20),
        write_probe: Err("denied".to_string()),
        last_error_debug: "None".to_string(),
        last_verify_ts: None,
        last_verify_issues: Some(3),
    };
    let text = doctor_report(&facts);
    assert_eq!(
        text,
        "# Backup Sync Doctor Report\nGenerated: now\n\nConfig file: c\nState file: s\nBackup destination: /root\nDestinations defined: 0\nWatched entries: 2\nMissing watched paths (1):\n  /b\nFree space at destination: 10 bytes\nProblem: free space below configured minimum 20\nProblem: cannot write to backup destination: denied. Check destination permissions and available space.\nLast error: None\nLast verify: None issues: Some(3)\n"
    );
    let empty = DoctorFacts { watched: vec![], free_space: Err("x".to_string()), write_probe: Ok(()), ..facts };
    let text = doctor_report(&empty);
    assert!(text.contains("Problem: no watched paths configured.\n"));
    assert!(text.contains("Problem reading free space: x\n"));
    assert!(text.contains("Write check: OK\n"));
}
