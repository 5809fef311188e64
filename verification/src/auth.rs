//! Session unlock state for privileged GUI actions, and passphrase checks.
//!
//! Times are milliseconds on a monotonic clock that the caller reads; the
//! session holds the deadline until which it stays unlocked.
use vstd::prelude::*;
use crate::error::{envelope_message, ErrorEnvelope};
use crate::text::{decimal, push_decimal, push_str, str_is_blank, is_blank};
use crate::correlation::{cid, cid_text};

verus! {

/// Auth state stored inside the session: the unlock deadline, if any.
#[derive(Debug)]
pub struct AuthState {
    pub unlocked_until: Option<u64>,
}

/// Session unlock tracking for GUI commands.
#[derive(Debug)]
pub struct SessionAuth {
    pub inner: AuthState,
}

/// The session is unlocked at `now` when its deadline lies strictly after `now`.
pub open spec fn unlocked_at(state: AuthState, now: nat) -> bool {
    match state.unlocked_until {
        Some(until) => until > now,
        None => false,
    }
}

/// Whole seconds left before the deadline (`Instant::checked_duration_since` then `as_secs`):
/// none when locked or when the deadline has passed.
pub open spec fn seconds_left_at(state: AuthState, now: nat) -> Option<u64> {
    match state.unlocked_until {
        Some(until) => if until >= now {
            Some(((until - now) / 1000) as u64)
        } else {
            None
        },
        None => None,
    }
}

impl AuthState {
    /// A locked state.
    pub fn new() -> (r: AuthState)
        ensures
            r.unlocked_until is None,
    {
        AuthState { unlocked_until: None }
    }
}

impl SessionAuth {
    /// A locked session.
    pub fn new() -> (r: SessionAuth)
        ensures
            r.inner.unlocked_until is None,
    {
        SessionAuth { inner: AuthState::new() }
    }

    /// Whether the session is unlocked at `now_ms`.
    pub fn is_unlocked(&self, now_ms: u64) -> (r: bool)
        ensures
            r == unlocked_at(self.inner, now_ms as nat),
    {
        match self.inner.unlocked_until {
            Some(until) => until > now_ms,
            None => false,
        }
    }

    /// The remaining unlock time in whole seconds, or `None` once locked or expired.
    pub fn seconds_left(&self, now_ms: u64) -> (r: Option<u64>)
        ensures
            r == seconds_left_at(self.inner, now_ms as nat),
    {
        match self.inner.unlocked_until {
            Some(until) => if until >= now_ms {
                Some((until - now_ms) / 1000)
            } else {
                None
            },
            None => None,
        }
    }

    /// Unlocks the session for `unlock_seconds` from `now_ms`.
    pub fn unlock(&mut self, now_ms: u64, unlock_seconds: u64)
        requires
            now_ms + unlock_seconds * 1000 <= u64::MAX,
        ensures
            final(self).inner.unlocked_until == Some((now_ms + unlock_seconds * 1000) as u64),
    {
        proof {
            assert(unlock_seconds * 1000 <= u64::MAX);
        }
        let span: u64 = unlock_seconds * 1000;
        self.inner.unlocked_until = Some(now_ms + span);
    }

    /// Locks the session immediately.
    pub fn lock(&mut self)
        ensures
            final(self).inner.unlocked_until is None,
    {
        self.inner.unlocked_until = None;
    }
}

/// Candidate and expected strings are equal, compared byte by byte without an early exit.
pub fn constant_time_eq(candidate: &str, expected: &str) -> (r: bool)
    ensures
        r == (candidate@ == expected@),
{
    let a = candidate.as_bytes();
    let b = expected.as_bytes();
    proof {
        vstd::utf8::encode_utf8_decode_utf8(candidate@);
        vstd::utf8::encode_utf8_decode_utf8(expected@);
    }
    if a.len() != b.len() {
        return false;
    }
    let mut diff: bool = false;
    let mut i: usize = 0;
    while i < a.len()
        invariant
            a.len() == b.len(),
            i <= a.len(),
            diff == exists|k: int| 0 <= k < i && a@[k] != b@[k],
        decreases a.len() - i,
    {
        let differs = a[i] != b[i];
        diff = diff || differs;
        i = i + 1;
    }
    proof {
        if !diff {
            assert(a@ =~= b@);
        }
    }
    !diff
}

/// The error for a passphrase variable that could not be read.
pub open spec fn passphrase_missing_message(reason: Seq<char>) -> Seq<char> {
    "auth::load_passphrase BACKUP_SYNC_PASSPHRASE not set: "@ + reason
}

/// The error for a passphrase variable that holds only whitespace.
pub open spec fn passphrase_empty_message() -> Seq<char> {
    "auth::load_passphrase BACKUP_SYNC_PASSPHRASE is empty"@
}

/// Checks the value of the passphrase variable: `Err(reason)` when it could not be read,
/// and an error too when it is blank; otherwise the passphrase itself.
pub fn load_passphrase(variable: Result<String, String>) -> (r: Result<String, ErrorEnvelope>)
    ensures
        variable is Err ==> (r matches Err(e) && e.code@ == "AUTH_MISSING"@
            && e.message@ == envelope_message("AUTH_MISSING"@, passphrase_missing_message(variable->Err_0@))),
        variable is Ok && is_blank(variable->Ok_0@) ==> (r matches Err(e) && e.code@ == "AUTH_MISSING"@
            && e.message@ == envelope_message("AUTH_MISSING"@, passphrase_empty_message())),
        variable is Ok && !is_blank(variable->Ok_0@) ==> r == Ok::<String, ErrorEnvelope>(variable->Ok_0),
{
    match variable {
        Err(reason) => {
            let mut msg = String::new();
            push_str(&mut msg, "auth::load_passphrase BACKUP_SYNC_PASSPHRASE not set: ");
            push_str(&mut msg, reason.as_str());
            Err(ErrorEnvelope::new("AUTH_MISSING", msg.as_str()))
        },
        Ok(value) => {
            if str_is_blank(value.as_str()) {
                Err(ErrorEnvelope::new(
                    "AUTH_MISSING",
                    "auth::load_passphrase BACKUP_SYNC_PASSPHRASE is empty",
                ))
            } else {
                Ok(value)
            }
        },
    }
}

/// `Ok(())` when the passphrase variable holds a usable passphrase.
pub fn ensure_passphrase_configured(variable: Result<String, String>) -> (r: Result<(), ErrorEnvelope>)
    ensures
        r is Ok <==> (variable is Ok && !is_blank(variable->Ok_0@)),
        variable is Err ==> (r matches Err(e) && e.code@ == "AUTH_MISSING"@
            && e.message@ == envelope_message("AUTH_MISSING"@, passphrase_missing_message(variable->Err_0@))),
        variable is Ok && is_blank(variable->Ok_0@) ==> (r matches Err(e) && e.code@ == "AUTH_MISSING"@
            && e.message@ == envelope_message("AUTH_MISSING"@, passphrase_empty_message())),
{
    match load_passphrase(variable) {
        Ok(_) => Ok(()),
        Err(e) => Err(e),
    }
}

/// The answer of the auth status command: whether the session is unlocked and the seconds left.
pub fn auth_status(
    variable: Result<String, String>,
    auth: &SessionAuth,
    now_ms: u64,
) -> (r: Result<(bool, Option<u64>), ErrorEnvelope>)
    ensures
        r is Ok <==> (variable is Ok && !is_blank(variable->Ok_0@)),
        r matches Ok(v) ==> v == (unlocked_at(auth.inner, now_ms as nat), seconds_left_at(auth.inner, now_ms as nat)),
{
    ensure_passphrase_configured(variable)?;
    Ok((auth.is_unlocked(now_ms), auth.seconds_left(now_ms)))
}

/// The confirmation shown after a successful unlock.
pub open spec fn unlock_message(unlock_seconds: nat) -> Seq<char> {
    "Session unlocked for "@ + decimal(unlock_seconds) + " seconds."@
}

/// The error for a wrong passcode.
pub open spec fn invalid_passcode_message(cid: Seq<char>) -> Seq<char> {
    "auth::unlock_session_cmd invalid passphrase for cid "@ + cid
}

/// Unlocks the session when `passcode` equals the configured passphrase. `seq` is the
/// caller's next correlation sequence number, used when no correlation id comes in.
pub fn unlock_session(
    passcode: &str,
    variable: Result<String, String>,
    correlation_id: Option<String>,
    auth: &mut SessionAuth,
    now_ms: u64,
    unlock_seconds: u64,
    seq: u64,
) -> (r: Result<String, ErrorEnvelope>)
    requires
        now_ms + unlock_seconds * 1000 <= u64::MAX,
    ensures
        r is Ok <==> (variable is Ok && !is_blank(variable->Ok_0@) && passcode@ == variable->Ok_0@),
        r matches Ok(m) ==> (m@ == unlock_message(unlock_seconds as nat)
            && final(auth).inner.unlocked_until == Some((now_ms + unlock_seconds * 1000) as u64)),
        r is Err ==> final(auth).inner == old(auth).inner,
        (variable is Ok && !is_blank(variable->Ok_0@) && passcode@ != variable->Ok_0@)
            ==> (r matches Err(e) && e.code@ == "AUTH_INVALID"@
            && (correlation_id is Some ==> e.message@ == envelope_message("AUTH_INVALID"@,
                invalid_passcode_message(correlation_id->0@)))
            && (correlation_id is None ==> exists|millis: i64| e.message@
                == envelope_message("AUTH_INVALID"@, invalid_passcode_message(cid_text("auth"@, millis as int, seq as nat))))),
{
    let expected = load_passphrase(variable)?;
    if !constant_time_eq(passcode, expected.as_str()) {
        let id = cid("auth", correlation_id, seq);
        let mut msg = String::new();
        push_str(&mut msg, "auth::unlock_session_cmd invalid passphrase for cid ");
        push_str(&mut msg, id.as_str());
        return Err(ErrorEnvelope::new("AUTH_INVALID", msg.as_str()));
    }
    auth.unlock(now_ms, unlock_seconds);
    let mut msg = String::new();
    push_str(&mut msg, "Session unlocked for ");
    push_decimal(&mut msg, unlock_seconds);
    push_str(&mut msg, " seconds.");
    Ok(msg)
}

/// Locks the session once the passphrase is known to be configured.
pub fn lock_session(variable: Result<String, String>, auth: &mut SessionAuth) -> (r: Result<(), ErrorEnvelope>)
    ensures
        r is Ok <==> (variable is Ok && !is_blank(variable->Ok_0@)),
        r is Ok ==> final(auth).inner.unlocked_until is None,
        r is Err ==> final(auth).inner == old(auth).inner,
{
    ensure_passphrase_configured(variable)?;
    auth.lock();
    Ok(())
}

/// A locked session stays locked at every time.
pub proof fn lemma_lock_is_locked_always(state: AuthState, now: nat)
    requires
        state.unlocked_until is None,
    ensures
        !unlocked_at(state, now),
        seconds_left_at(state, now) is None,
{
}

/// Right after an unlock for a positive number of seconds the session is unlocked, with
/// exactly that many seconds left.
pub proof fn lemma_unlock_then_unlocked(now: u64, unlock_seconds: u64)
    requires
        unlock_seconds > 0,
        now + unlock_seconds * 1000 <= u64::MAX,
    ensures
        ({
            let state = AuthState { unlocked_until: Some((now + unlock_seconds * 1000) as u64) };
            unlocked_at(state, now as nat) && seconds_left_at(state, now as nat) == Some(unlock_seconds)
        }),
{
    assert((unlock_seconds * 1000) / 1000 == unlock_seconds) by (nonlinear_arith);
}

/// Expiry is permanent: once the session is locked at some time, it is locked at every later time.
pub proof fn lemma_expiry_is_monotone(state: AuthState, now: nat, later: nat)
    requires
        now <= later,
        !unlocked_at(state, now),
    ensures
        !unlocked_at(state, later),
{
}

/// An unlocked session always reports a remaining time.
pub proof fn lemma_unlocked_has_seconds_left(state: AuthState, now: nat)
    requires
        unlocked_at(state, now),
    ensures
        seconds_left_at(state, now) is Some,
{
}

} // verus!
