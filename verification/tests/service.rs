use gui::error::ErrorEnvelope;
use gui::service::{
    alive_process_ids, command_error, command_step, command_timed_out, finish_restart, ipc_timestamps, is_zombie_state,
    pids_from_output, start_commands, CommandAction, CommandFailure,
};
use gui::service::{linux, macos, unsupported, windows};

fn err(code: &str, msg: &str) -> ErrorEnvelope {
    ErrorEnvelope::new(code, msg)
}

#[test]
fn a_retried_step_reports_its_first_error() {
    let steps = linux::enable_systemd();
    let (mut run, first) = start_commands(&steps);
    assert!(matches!(first, CommandAction::Run(0)));
    let a = command_step(&steps, &mut run, Err(err("SERVICE_ENABLE", "first")));
    assert!(matches!(a, CommandAction::RetryAfterDelay(0)));
    match command_step(&steps, &mut run, Err(err("SERVICE_ENABLE", "second"))) {
        CommandAction::Done(Err(e)) => assert!(e.message.starts_with("first")),
        _ => panic!("expected the first error"),
    }
}

#[test]
fn a_sequence_runs_every_step_in_order() {
    let steps = linux::enable_systemd();
    assert_eq!(steps[0].command.args, vec!["--user".to_string(), "daemon-reload".to_string()]);
    assert_eq!(steps[1].command.args[3], "backup-sync.service");
    let (mut run, _) = start_commands(&steps);
    let a = command_step(&steps, &mut run, Err(err("SERVICE_ENABLE", "flaky")));
    assert!(matches!(a, CommandAction::RetryAfterDelay(0)));
    assert!(matches!(command_step(&steps, &mut run, Ok(())), CommandAction::Run(1)));
    assert!(matches!(command_step(&steps, &mut run, Ok(())), CommandAction::Done(Ok(()))));
}

#[test]
fn a_failed_kickstart_does_not_fail_the_install() {
    let steps = macos::enable_launchd("/p.plist", Some("gui/501/com.backup_sync.daemon".to_string()));
    assert_eq!(steps.len(), 2);
    let (mut run, _) = start_commands(&steps);
    command_step(&steps, &mut run, Ok(()));
    assert!(matches!(command_step(&steps, &mut run, Err(err("SERVICE_ENABLE", "nope"))), CommandAction::Done(Ok(()))));
    assert_eq!(macos::enable_launchd("/p.plist", None).len(), 1);
}

#[test]
fn launchctl_target_from_uid_output() {
    assert_eq!(macos::launchctl_target(Ok(" 501\n".to_string())).unwrap(), "gui/501/com.backup_sync.daemon");
    assert_eq!(macos::launchctl_target(Ok("  \n".to_string())).unwrap_err().code, "SERVICE_UID");
    assert_eq!(macos::launchctl_target(Err(err("SERVICE_UID", "spawn"))).unwrap_err().code, "SERVICE_UID");
    let plan = macos::restart_daemon(Err(err("SERVICE_UID", "x")));
    assert_eq!(plan.command.args[2], "com.backup_sync.daemon");
    assert_eq!(plan.success, "Daemon restarted via launchctl (com.backup_sync.daemon).");
    assert_eq!(macos::restart_daemon_direct("\"/bin/daemon\"", Ok(())).unwrap(), "Daemon restarted directly via \"/bin/daemon\".");
}

#[test]
fn restarts_per_platform() {
    let l = linux::restart_daemon();
    assert_eq!(finish_restart(l, Ok(())).unwrap(), "Daemon restarted via systemctl --user.");
    let w = windows::restart_daemon();
    assert_eq!(w.command.program, "schtasks");
    assert_eq!(finish_restart(w, Err(err("RESTART_FAILED", "x"))).unwrap_err().code, "RESTART_FAILED");
    assert_eq!(unsupported::restart_daemon().unwrap_err().code, "RESTART_UNSUPPORTED");
    assert_eq!(unsupported::install_service().unwrap_err().code, "SERVICE_UNSUPPORTED");
    assert!(!unsupported::status().unwrap().installed);
    let task = windows::enable_task("C:\\task.xml");
    assert_eq!(task[0].command.args[4], "C:\\task.xml");
}

#[test]
fn statuses_describe_the_definition_file() {
    let s = linux::status_linux("\"/u.service\"", true, false, Some(3), None);
    assert_eq!(s.message, "Start on login enabled (systemd unit at \"/u.service\") but daemon unreachable");
    assert_eq!(s.fix_command.as_deref(), Some("systemctl --user enable --now backup-sync.service"));
    let m = macos::status_macos("\"/p.plist\"", true, true, Some(9), Some(10));
    assert_eq!(m.message, "Service running (launchd plist at \"/p.plist\")");
    assert_eq!(m.fix_command.as_deref(), Some("launchctl load \"/p.plist\""));
    let w = windows::status_windows("\"t.xml\"", false, true, Some(1), Some(2));
    assert!(!w.installed && !w.reachable);
    assert_eq!(w.message, "Start on login not installed. XML expected at \"t.xml\"");
    assert_eq!(w.uptime_secs, None);
    assert_eq!(linux::installed_message("\"/u\""), "Service installed at \"/u\" and enabled via systemd.");
}

#[test]
fn command_failures_are_worded_per_kind() {
    let cmd = linux::restart_daemon().command;
    let e = command_error(&cmd, CommandFailure::TimedOut(30));
    assert_eq!(e.code, "RESTART_FAILED");
    assert!(e.message.starts_with("service::run_command systemctl --user restart timed out after 30 seconds"));
    let e = command_error(&cmd, CommandFailure::Exit("unit missing".to_string()));
    assert!(e.message.starts_with("service::run_command systemctl --user restart failed: unit missing"));
    assert!(command_timed_out(30_001, 30));
    assert!(!command_timed_out(30_000, 30));
}

#[test]
fn process_ids_and_liveness() {
    let pids = pids_from_output(" 12\n\n 34 \n");
    assert_eq!(pids, vec!["12".to_string(), "34".to_string()]);
    let alive = alive_process_ids(&pids, &vec![Ok(false), Ok(true)]).unwrap();
    assert_eq!(alive, vec!["34".to_string()]);
    let failed = alive_process_ids(&pids, &vec![Err(err("RESTART_FAILED", "ps")), Ok(true)]).unwrap_err();
    assert!(failed.message.starts_with("ps"));
    assert!(is_zombie_state(" Z+\n"));
    assert!(!is_zombie_state("S"));
    assert!(!is_zombie_state(""));
    assert_eq!(ipc_timestamps(true, Some(5), 100), (Some(5), Some(100)));
    assert_eq!(ipc_timestamps(false, Some(5), 100), (Some(5), None));
}

#[test]
fn a_failed_step_without_retry_ends_the_sequence() {
    let steps = linux::enable_systemd();
    let (mut run, _) = start_commands(&steps);
    assert!(matches!(command_step(&steps, &mut run, Ok(())), CommandAction::Run(1)));
    match command_step(&steps, &mut run, Err(err("SERVICE_ENABLE", "enable refused"))) {
        CommandAction::Done(Err(e)) => assert!(e.message.starts_with("enable refused")),
        _ => panic!("a failed enable must end the sequence"),
    }
}
