//! Access guard for privileged GUI commands.
use vstd::prelude::*;
use crate::auth::{ensure_passphrase_configured, passphrase_empty_message, passphrase_missing_message, unlocked_at, SessionAuth};
use crate::correlation::{self, cid_text};
use crate::error::{envelope_message, ErrorEnvelope};
use crate::text::{is_blank, push_str};

verus! {

/// The error for a command attempted while the session is locked.
pub open spec fn locked_message(cid: Seq<char>) -> Seq<char> {
    "security::ensure_session_unlocked locked for cid "@ + cid + "; unlock required"@
}

/// Allows a privileged command only when the passphrase is configured and the session is
/// unlocked at `now_ms`. `seq` is the caller's next correlation sequence number, used when
/// no correlation id comes in.
pub fn ensure_session_unlocked(
    auth: &SessionAuth,
    variable: Result<String, String>,
    now_ms: u64,
    correlation_id: Option<String>,
    seq: u64,
) -> (r: Result<(), ErrorEnvelope>)
    ensures
        r is Ok <==> (variable is Ok && !is_blank(variable->Ok_0@) && unlocked_at(auth.inner, now_ms as nat)),
        variable is Err ==> (r matches Err(e) && e.code@ == "AUTH_MISSING"@
            && e.message@ == envelope_message("AUTH_MISSING"@, passphrase_missing_message(variable->Err_0@))),
        variable is Ok && is_blank(variable->Ok_0@) ==> (r matches Err(e) && e.code@ == "AUTH_MISSING"@
            && e.message@ == envelope_message("AUTH_MISSING"@, passphrase_empty_message())),
        (variable is Ok && !is_blank(variable->Ok_0@) && !unlocked_at(auth.inner, now_ms as nat))
            ==> (r matches Err(e) && e.code@ == "AUTH_LOCKED"@
            && (correlation_id is Some ==> e.message@ == envelope_message("AUTH_LOCKED"@,
                locked_message(correlation_id->0@)))
            && (correlation_id is None ==> exists|millis: i64| e.message@
                == envelope_message("AUTH_LOCKED"@, locked_message(cid_text("auth"@, millis as int, seq as nat))))),
{
    ensure_passphrase_configured(variable)?;
    if auth.is_unlocked(now_ms) {
        return Ok(());
    }
    let id = correlation::cid("auth", correlation_id, seq);
    let mut msg = String::new();
    push_str(&mut msg, "security::ensure_session_unlocked locked for cid ");
    push_str(&mut msg, id.as_str());
    push_str(&mut msg, "; unlock required");
    Err(ErrorEnvelope::new("AUTH_LOCKED", msg.as_str()))
}

/// A correlation id for GUI command tracing: the incoming id, or a fresh one ending in
/// the caller's sequence number `seq`.
pub fn cid(prefix: &str, incoming: Option<String>, seq: u64) -> (r: String)
    ensures
        incoming is Some ==> r == incoming->0,
        incoming is None ==> exists|millis: i64| r@ == cid_text(prefix@, millis as int, seq as nat),
{
    correlation::cid(prefix, incoming, seq)
}

} // verus!
