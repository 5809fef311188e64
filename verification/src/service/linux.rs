//! The systemd user service.
use vstd::prelude::*;
use crate::service::{service_command, service_status, status_of, status_view, CommandStep, RestartPlan, ServiceStatus};
use crate::text::push_str;

verus! {

/// Enabling the unit: reload the user daemon (retried once), then enable and start it.
pub fn enable_systemd() -> (r: Vec<CommandStep>)
    ensures
        r@.len() == 2,
        r@[0].command.program@ == "systemctl"@ && r@[0].retry && !r@[0].best_effort
            && r@[0].command.code@ == "SERVICE_ENABLE"@ && r@[0].command.context@ == "systemctl --user daemon-reload"@
            && r@[0].command.args@.len() == 2 && r@[0].command.args@[0]@ == "--user"@
            && r@[0].command.args@[1]@ == "daemon-reload"@,
        r@[1].command.program@ == "systemctl"@ && !r@[1].retry && !r@[1].best_effort
            && r@[1].command.code@ == "SERVICE_ENABLE"@ && r@[1].command.context@ == "systemctl --user enable --now"@
            && r@[1].command.args@.len() == 4 && r@[1].command.args@[0]@ == "--user"@
            && r@[1].command.args@[1]@ == "enable"@ && r@[1].command.args@[2]@ == "--now"@
            && r@[1].command.args@[3]@ == "backup-sync.service"@,
{
    let mut v: Vec<CommandStep> = Vec::new();
    v.push(CommandStep {
        command: service_command("systemctl", &["--user", "daemon-reload"], "SERVICE_ENABLE", "systemctl --user daemon-reload"),
        retry: true,
        best_effort: false,
    });
    v.push(CommandStep {
        command: service_command(
            "systemctl",
            &["--user", "enable", "--now", "backup-sync.service"],
            "SERVICE_ENABLE",
            "systemctl --user enable --now",
        ),
        retry: false,
        best_effort: false,
    });
    v
}

/// Restarting the unit through `systemctl --user restart`.
pub fn restart_daemon() -> (r: RestartPlan)
    ensures
        r.command.program@ == "systemctl"@,
        r.command.args@.len() == 3 && r.command.args@[0]@ == "--user"@ && r.command.args@[1]@ == "restart"@
            && r.command.args@[2]@ == "backup-sync.service"@,
        r.command.code@ == "RESTART_FAILED"@,
        r.command.context@ == "systemctl --user restart"@,
        r.success@ == "Daemon restarted via systemctl --user."@,
{
    RestartPlan {
        command: service_command("systemctl", &["--user", "restart", "backup-sync.service"], "RESTART_FAILED", "systemctl --user restart"),
        success: String::from_str("Daemon restarted via systemctl --user."),
    }
}

/// The service status given how the unit file is quoted and whether it exists.
pub fn status_linux(unit: &str, present: bool, reachable: bool, uptime_secs: Option<i64>, last_ipc: Option<i64>) -> (r: ServiceStatus)
    ensures
        status_view(r) == status_of(unit@, present, reachable, uptime_secs, last_ipc, "systemd unit"@, "enabled"@,
            "Unit"@, "systemctl --user enable --now backup-sync.service"@, "backup-sync install-service --enable"@),
{
    service_status(unit, present, reachable, uptime_secs, last_ipc, "systemd unit", "enabled", "Unit",
        "systemctl --user enable --now backup-sync.service", "backup-sync install-service --enable")
}

/// The message of a successful install.
pub fn installed_message(unit: &str) -> (r: String)
    ensures
        r@ == "Service installed at "@ + unit@ + " and enabled via systemd."@,
{
    let mut m = String::new();
    push_str(&mut m, "Service installed at ");
    push_str(&mut m, unit);
    push_str(&mut m, " and enabled via systemd.");
    m
}

} // verus!
