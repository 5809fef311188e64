//! The service commands on platforms without a service manager integration.
use vstd::prelude::*;
use crate::error::{envelope_message, ErrorEnvelope};
use crate::service::ServiceStatus;

verus! {

/// Installing the service is not available here.
pub fn install_service() -> (r: Result<String, ErrorEnvelope>)
    ensures
        r matches Err(e) && e.code@ == "SERVICE_UNSUPPORTED"@
            && e.message@ == envelope_message("SERVICE_UNSUPPORTED"@, "Service install not implemented on this platform"@),
{
    Err(ErrorEnvelope::new("SERVICE_UNSUPPORTED", "Service install not implemented on this platform"))
}

/// The service status here: never installed, never reachable.
pub fn status() -> (r: Result<ServiceStatus, ErrorEnvelope>)
    ensures
        r matches Ok(s) && !s.installed && !s.reachable
            && s.message@ == "Service status not implemented on this platform"@
            && s.fix_command is None && s.uptime_secs is None && s.last_ipc_ts is None,
{
    Ok(ServiceStatus {
        installed: false,
        reachable: false,
        message: String::from_str("Service status not implemented on this platform"),
        fix_command: None,
        uptime_secs: None,
        last_ipc_ts: None,
    })
}

/// Restarting the daemon is not available here.
pub fn restart_daemon() -> (r: Result<String, ErrorEnvelope>)
    ensures
        r matches Err(e) && e.code@ == "RESTART_UNSUPPORTED"@
            && e.message@ == envelope_message("RESTART_UNSUPPORTED"@, "Restart not implemented on this platform"@),
{
    Err(ErrorEnvelope::new("RESTART_UNSUPPORTED", "Restart not implemented on this platform"))
}

} // verus!
