//! The launchd agent.
use vstd::prelude::*;
use crate::error::{envelope_message, ErrorEnvelope};
use crate::service::{service_command, service_status, status_of, status_view, CommandStep, RestartPlan, ServiceCommand, ServiceStatus};
use crate::text::{push_str, trim_seq, trim_string};

verus! {

/// The launchd label of the daemon.
pub const LAUNCHD_LABEL: &'static str = "com.backup_sync.daemon";

/// The command that prints the user id, for the launchctl target.
pub fn uid_command() -> (r: ServiceCommand)
    ensures
        r.program@ == "id"@,
        r.args@.len() == 1 && r.args@[0]@ == "-u"@,
        r.code@ == "SERVICE_UID"@,
        r.context@ == "id -u"@,
{
    service_command("id", &["-u"], "SERVICE_UID", "id -u")
}

/// The launchctl target `gui/<uid>/com.backup_sync.daemon` from the output of `id -u`.
/// A failed command passes its error on; blank output is an error of its own.
pub fn launchctl_target(uid_output: Result<String, ErrorEnvelope>) -> (r: Result<String, ErrorEnvelope>)
    ensures
        uid_output matches Err(e) ==> r == Err::<String, ErrorEnvelope>(e),
        uid_output matches Ok(out) ==> if trim_seq(out@).len() == 0 {
            r matches Err(e) && e.code@ == "SERVICE_UID"@ && e.message@ == envelope_message("SERVICE_UID"@,
                "service::macos::launchctl_target failed to parse UID from `id -u` output"@)
        } else {
            r matches Ok(t) && t@ == "gui/"@ + trim_seq(out@) + "/"@ + LAUNCHD_LABEL@
        },
{
    match uid_output {
        Err(e) => Err(e),
        Ok(out) => {
            let uid = trim_string(out.as_str());
            if uid.unicode_len() == 0 {
                return Err(ErrorEnvelope::new(
                    "SERVICE_UID",
                    "service::macos::launchctl_target failed to parse UID from `id -u` output",
                ));
            }
            let mut t = String::new();
            push_str(&mut t, "gui/");
            push_str(&mut t, uid.as_str());
            push_str(&mut t, "/");
            push_str(&mut t, LAUNCHD_LABEL);
            Ok(t)
        },
    }
}

/// Enabling the agent: load the plist (retried once), then, when the launchctl target is
/// known, kickstart it; a failed kickstart does not fail the install.
pub fn enable_launchd(plist: &str, target: Option<String>) -> (r: Vec<CommandStep>)
    ensures
        r@.len() == if target is Some { 2int } else { 1int },
        r@[0].command.program@ == "launchctl"@ && r@[0].retry && !r@[0].best_effort
            && r@[0].command.code@ == "SERVICE_ENABLE"@ && r@[0].command.context@ == "launchctl load"@
            && r@[0].command.args@.len() == 2 && r@[0].command.args@[0]@ == "load"@ && r@[0].command.args@[1]@ == plist@,
        target matches Some(t) ==> r@[1].command.program@ == "launchctl"@ && !r@[1].retry && r@[1].best_effort
            && r@[1].command.code@ == "SERVICE_ENABLE"@ && r@[1].command.context@ == "launchctl kickstart"@
            && r@[1].command.args@.len() == 3 && r@[1].command.args@[0]@ == "kickstart"@
            && r@[1].command.args@[1]@ == "-k"@ && r@[1].command.args@[2]@ == t@,
{
    let mut v: Vec<CommandStep> = Vec::new();
    v.push(CommandStep {
        command: service_command("launchctl", &["load", plist], "SERVICE_ENABLE", "launchctl load"),
        retry: true,
        best_effort: false,
    });
    if let Some(t) = target {
        v.push(CommandStep {
            command: service_command("launchctl", &["kickstart", "-k", t.as_str()], "SERVICE_ENABLE", "launchctl kickstart"),
            retry: false,
            best_effort: true,
        });
    }
    v
}

/// Restarting through `launchctl kickstart -k`, aimed at the resolved target or, when it
/// could not be resolved, at the bare label.
pub fn restart_daemon(target: Result<String, ErrorEnvelope>) -> (r: RestartPlan)
    ensures
        ({
            let t = match target { Ok(t) => t@, Err(_) => LAUNCHD_LABEL@ };
            &&& r.command.program@ == "launchctl"@
            &&& r.command.args@.len() == 3 && r.command.args@[0]@ == "kickstart"@ && r.command.args@[1]@ == "-k"@
                && r.command.args@[2]@ == t
            &&& r.command.code@ == "RESTART_FAILED"@
            &&& r.command.context@ == "launchctl kickstart"@
            &&& r.success@ == "Daemon restarted via launchctl ("@ + t + ")."@
        }),
{
    let t = match target {
        Ok(t) => t,
        Err(_) => String::from_str(LAUNCHD_LABEL),
    };
    let mut success = String::new();
    push_str(&mut success, "Daemon restarted via launchctl (");
    push_str(&mut success, t.as_str());
    push_str(&mut success, ").");
    RestartPlan {
        command: service_command("launchctl", &["kickstart", "-k", t.as_str()], "RESTART_FAILED", "launchctl kickstart"),
        success,
    }
}

/// The answer of a direct restart (stopping matching daemons and starting the daemon
/// executable quoted as `exec`), once it ran.
pub fn restart_daemon_direct(exec: &str, outcome: Result<(), ErrorEnvelope>) -> (r: Result<String, ErrorEnvelope>)
    ensures
        outcome is Ok ==> (r matches Ok(m) && m@ == "Daemon restarted directly via "@ + exec@ + "."@),
        outcome matches Err(e) ==> r == Err::<String, ErrorEnvelope>(e),
{
    match outcome {
        Ok(()) => {
            let mut m = String::new();
            push_str(&mut m, "Daemon restarted directly via ");
            push_str(&mut m, exec);
            push_str(&mut m, ".");
            Ok(m)
        },
        Err(e) => Err(e),
    }
}

/// The service status given how the plist is quoted and whether it exists.
pub fn status_macos(plist: &str, present: bool, reachable: bool, uptime_secs: Option<i64>, last_ipc: Option<i64>) -> (r: ServiceStatus)
    ensures
        status_view(r) == status_of(plist@, present, reachable, uptime_secs, last_ipc, "launchd plist"@, "enabled"@,
            "Plist"@, "launchctl load "@ + plist@, "Use tray: Start on login, or run: backup-sync install-service --enable"@),
{
    let mut fix = String::new();
    push_str(&mut fix, "launchctl load ");
    push_str(&mut fix, plist);
    service_status(plist, present, reachable, uptime_secs, last_ipc, "launchd plist", "enabled", "Plist",
        fix.as_str(), "Use tray: Start on login, or run: backup-sync install-service --enable")
}

/// The message of a successful install.
pub fn installed_message(plist: &str) -> (r: String)
    ensures
        r@ == "Service installed at "@ + plist@ + ". Enabled via launchctl."@,
{
    let mut m = String::new();
    push_str(&mut m, "Service installed at ");
    push_str(&mut m, plist);
    push_str(&mut m, ". Enabled via launchctl.");
    m
}

} // verus!
