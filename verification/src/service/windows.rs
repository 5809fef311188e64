//! The Windows scheduled task.
use vstd::prelude::*;
use crate::service::{service_command, service_status, status_of, status_view, CommandStep, RestartPlan, ServiceStatus};
use crate::text::push_str;

verus! {

/// Registering the task from its XML definition at `dest` (retried once).
pub fn enable_task(dest: &str) -> (r: Vec<CommandStep>)
    ensures
        r@.len() == 1,
        r@[0].command.program@ == "schtasks"@ && r@[0].retry && !r@[0].best_effort,
        r@[0].command.code@ == "SERVICE_ENABLE"@ && r@[0].command.context@ == "schtasks /Create"@,
        r@[0].command.args@.len() == 6 && r@[0].command.args@[0]@ == "/Create"@ && r@[0].command.args@[1]@ == "/TN"@
            && r@[0].command.args@[2]@ == "BackupSync"@ && r@[0].command.args@[3]@ == "/XML"@
            && r@[0].command.args@[4]@ == dest@ && r@[0].command.args@[5]@ == "/F"@,
{
    let mut v: Vec<CommandStep> = Vec::new();
    v.push(CommandStep {
        command: service_command("schtasks", &["/Create", "/TN", "BackupSync", "/XML", dest, "/F"], "SERVICE_ENABLE", "schtasks /Create"),
        retry: true,
        best_effort: false,
    });
    v
}

/// Restarting by running the scheduled task.
pub fn restart_daemon() -> (r: RestartPlan)
    ensures
        r.command.program@ == "schtasks"@,
        r.command.args@.len() == 3 && r.command.args@[0]@ == "/Run"@ && r.command.args@[1]@ == "/TN"@
            && r.command.args@[2]@ == "BackupSync"@,
        r.command.code@ == "RESTART_FAILED"@,
        r.command.context@ == "schtasks /Run"@,
        r.success@ == "Scheduled task triggered via schtasks."@,
{
    RestartPlan {
        command: service_command("schtasks", &["/Run", "/TN", "BackupSync"], "RESTART_FAILED", "schtasks /Run"),
        success: String::from_str("Scheduled task triggered via schtasks."),
    }
}

/// The service status given how the task XML file is quoted and whether it exists.
pub fn status_windows(task_xml: &str, present: bool, reachable: bool, uptime_secs: Option<i64>, last_ipc: Option<i64>) -> (r: ServiceStatus)
    ensures
        status_view(r) == status_of(task_xml@, present, reachable, uptime_secs, last_ipc, "task XML"@, "configured"@,
            "XML"@, "schtasks /Run /TN \"BackupSync\""@, "backup-sync install-service --enable"@),
{
    service_status(task_xml, present, reachable, uptime_secs, last_ipc, "task XML", "configured", "XML",
        "schtasks /Run /TN \"BackupSync\"", "backup-sync install-service --enable")
}

/// The message of a successful install.
pub fn installed_message(task_xml: &str) -> (r: String)
    ensures
        r@ == "Service installed at "@ + task_xml@ + " and registered via schtasks."@,
{
    let mut m = String::new();
    push_str(&mut m, "Service installed at ");
    push_str(&mut m, task_xml);
    push_str(&mut m, " and registered via schtasks.");
    m
}

} // verus!
