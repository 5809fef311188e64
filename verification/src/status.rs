//! Daemon status: the per-destination records shown in the GUI, and how a failed status
//! request and an oversized reply are reported.
use vstd::prelude::*;
use crate::error::{envelope_message, ErrorEnvelope};
use crate::text::{contains_seq, decimal, push_decimal, push_str, str_contains};

verus! {

/// One destination as the daemon reports it.
#[derive(Debug)]
pub struct DestinationStatus {
    pub id: String,
    pub label: Option<String>,
    pub path: String,
    pub reachable: bool,
    pub writable: bool,
    pub free_bytes: Option<u64>,
    pub message: String,
}

/// One destination as the GUI receives it.
#[derive(Debug)]
pub struct DestinationDto {
    pub id: String,
    pub label: Option<String>,
    pub path: String,
    pub reachable: bool,
    pub writable: bool,
    pub free_bytes: Option<u64>,
    pub message: String,
}

/// The GUI record of a daemon destination record; every field is carried over.
pub fn destination_dto(d: DestinationStatus) -> (r: DestinationDto)
    ensures
        r.id == d.id,
        r.label == d.label,
        r.path == d.path,
        r.reachable == d.reachable,
        r.writable == d.writable,
        r.free_bytes == d.free_bytes,
        r.message == d.message,
{
    DestinationDto {
        id: d.id,
        label: d.label,
        path: d.path,
        reachable: d.reachable,
        writable: d.writable,
        free_bytes: d.free_bytes,
        message: d.message,
    }
}

/// The GUI records of all daemon destination records, in order.
pub fn destination_dtos(v: Vec<DestinationStatus>) -> (r: Vec<DestinationDto>)
    ensures
        r@.len() == v@.len(),
        forall|k: int| 0 <= k < v@.len() ==> (#[trigger] r@[k]).id == v@[k].id && r@[k].label == v@[k].label
            && r@[k].path == v@[k].path && r@[k].reachable == v@[k].reachable && r@[k].writable == v@[k].writable
            && r@[k].free_bytes == v@[k].free_bytes && r@[k].message == v@[k].message,
{
    let ghost all = v@;
    let mut rest = v;
    let mut out: Vec<DestinationDto> = Vec::new();
    let mut taken: Vec<DestinationDto> = Vec::new();
    // Drain from the back, then restore the order.
    while rest.len() > 0
        invariant
            rest@ == all.take(rest@.len() as int),
            rest@.len() <= all.len(),
            taken@.len() == all.len() - rest@.len(),
            forall|k: int| 0 <= k < taken@.len() ==> {
                let src = all[all.len() - 1 - k];
                &&& (#[trigger] taken@[k]).id == src.id && taken@[k].label == src.label && taken@[k].path == src.path
                &&& taken@[k].reachable == src.reachable && taken@[k].writable == src.writable
                &&& taken@[k].free_bytes == src.free_bytes && taken@[k].message == src.message
            },
        decreases rest@.len(),
    {
        let d = rest.pop().unwrap();
        proof {
            assert(rest@ =~= all.take(rest@.len() as int));
        }
        taken.push(destination_dto(d));
    }
    while taken.len() > 0
        invariant
            taken@.len() + out@.len() == all.len(),
            forall|k: int| 0 <= k < taken@.len() ==> {
                let src = all[all.len() - 1 - k];
                &&& (#[trigger] taken@[k]).id == src.id && taken@[k].label == src.label && taken@[k].path == src.path
                &&& taken@[k].reachable == src.reachable && taken@[k].writable == src.writable
                &&& taken@[k].free_bytes == src.free_bytes && taken@[k].message == src.message
            },
            forall|k: int| 0 <= k < out@.len() ==> (#[trigger] out@[k]).id == all[k].id && out@[k].label == all[k].label
                && out@[k].path == all[k].path && out@[k].reachable == all[k].reachable && out@[k].writable == all[k].writable
                && out@[k].free_bytes == all[k].free_bytes && out@[k].message == all[k].message,
        decreases taken@.len(),
    {
        let d = taken.pop().unwrap();
        out.push(d);
    }
    out
}

/// The message shown when the daemon is not running.
pub open spec fn offline_message() -> Seq<char> {
    "Daemon not running yet. Finish setup, then enable Start on login to keep it running in the background."@
}

/// The error for a failed status request: `summary` is the error's own text, `detail`
/// the full redacted error chain. A missing IPC socket means the daemon is offline.
pub fn status_error(summary: &str, detail: &str) -> (r: ErrorEnvelope)
    ensures
        contains_seq(summary@, "daemon IPC socket not found"@) ==> r.code@ == "DAEMON_OFFLINE"@
            && r.message@ == envelope_message("DAEMON_OFFLINE"@, offline_message()),
        !contains_seq(summary@, "daemon IPC socket not found"@) ==> r.code@ == "STATUS_UNAVAILABLE"@
            && r.message@ == envelope_message("STATUS_UNAVAILABLE"@,
                "status::get_status failed to fetch status"@ + ": "@ + detail@),
{
    if str_contains(summary, "daemon IPC socket not found") {
        return ErrorEnvelope::new(
            "DAEMON_OFFLINE",
            "Daemon not running yet. Finish setup, then enable Start on login to keep it running in the background.",
        );
    }
    ErrorEnvelope::with_context("STATUS_UNAVAILABLE", "status::get_status failed to fetch status", detail)
}

/// The IPC timeout in seconds: the configured value, at least one second.
pub fn ipc_timeout_seconds(configured: u64) -> (r: u64)
    ensures
        r == if configured >= 1 { configured } else { 1 },
{
    if configured >= 1 { configured } else { 1 }
}

/// Appends one chunk of a daemon reply; a reply growing past `max_bytes` is refused.
pub fn append_reply_chunk(buf: &mut Vec<u8>, chunk: &[u8], max_bytes: usize) -> (r: Result<(), String>)
    ensures
        final(buf)@ == old(buf)@ + chunk@,
        r is Ok <==> final(buf)@.len() <= max_bytes,
        r matches Err(m) ==> m@ == "status_api::read_bounded_to_end response exceeded "@ + decimal(max_bytes as nat)
            + " bytes"@,
{
    let mut i: usize = 0;
    let ghost start = buf@;
    while i < chunk.len()
        invariant
            i <= chunk.len(),
            buf@ == start + chunk@.take(i as int),
        decreases chunk.len() - i,
    {
        buf.push(chunk[i]);
        proof {
            assert(start + chunk@.take(i + 1) =~= (start + chunk@.take(i as int)).push(chunk@[i as int]));
        }
        i = i + 1;
    }
    proof {
        assert(chunk@.take(chunk.len() as int) =~= chunk@);
    }
    if buf.len() > max_bytes {
        let mut m = String::new();
        push_str(&mut m, "status_api::read_bounded_to_end response exceeded ");
        push_decimal(&mut m, max_bytes as u64);
        push_str(&mut m, " bytes");
        return Err(m);
    }
    Ok(())
}

/// An empty daemon reply is an error of its own.
pub fn check_reply_not_empty(reply: &Vec<u8>) -> (r: Result<(), String>)
    ensures
        r is Ok <==> reply@.len() > 0,
        r matches Err(m) ==> m@ == "status_api::fetch_status_over_stream empty status response from daemon"@,
{
    if reply.len() == 0 {
        return Err(String::from_str("status_api::fetch_status_over_stream empty status response from daemon"));
    }
    Ok(())
}

} // verus!
