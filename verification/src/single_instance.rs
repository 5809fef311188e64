//! Keeping one running instance: the lock file and how opening it is retried.
use vstd::prelude::*;
use crate::text::{decimal, push_decimal, push_str};

verus! {

/// The pauses between attempts to open the lock file, in milliseconds.
pub const LOCK_OPEN_RETRY_DELAYS_MS: [u64; 3] = [100, 200, 400];

/// The time after which opening the lock file is given up, in milliseconds.
pub const LOCK_OPEN_TIMEOUT_MS: u64 = 3000;

/// What to do after a failed attempt to open the lock file.
#[derive(Debug)]
pub enum LockRetry {
    /// Wait this many milliseconds, then try again.
    RetryAfter(u64),
    /// Stop and report the last error.
    GiveUp,
}

/// The decision after failed attempt `attempt` (counting from zero), `elapsed_ms` after
/// the first one: give up once the timeout has passed or the last attempt failed,
/// otherwise wait that attempt's delay.
pub fn after_failed_lock_open(attempt: usize, elapsed_ms: u64) -> (r: LockRetry)
    ensures
        (elapsed_ms > LOCK_OPEN_TIMEOUT_MS || attempt >= 2) ==> r is GiveUp,
        !(elapsed_ms > LOCK_OPEN_TIMEOUT_MS || attempt >= 2) ==>
            r == LockRetry::RetryAfter(LOCK_OPEN_RETRY_DELAYS_MS@[attempt as int]),
{
    if elapsed_ms > LOCK_OPEN_TIMEOUT_MS || attempt >= 2 {
        return LockRetry::GiveUp;
    }
    LockRetry::RetryAfter(LOCK_OPEN_RETRY_DELAYS_MS[attempt])
}

/// The lock file name for an application identifier.
pub fn lock_file_name(identifier: &str) -> (r: String)
    ensures
        r@ == identifier@ + ".single_instance.lock"@,
{
    let mut s = String::new();
    push_str(&mut s, identifier);
    push_str(&mut s, ".single_instance.lock");
    s
}

/// The message when the lock file could not be opened; `lock_name` is the file's name
/// when it can be shown.
pub fn lock_open_failure(lock_name: Option<&str>, error: &str) -> (r: String)
    ensures
        r@ == "tauri_plugin_single_instance::open_lock_file_with_retry failed opening lock file "@
            + match lock_name { Some(n) => n@, None => "<unknown>"@ } + " after retries: "@ + error@,
{
    let mut s = String::new();
    push_str(&mut s, "tauri_plugin_single_instance::open_lock_file_with_retry failed opening lock file ");
    match lock_name {
        Some(n) => push_str(&mut s, n),
        None => push_str(&mut s, "<unknown>"),
    }
    push_str(&mut s, " after retries: ");
    push_str(&mut s, error);
    s
}

/// A log correlation id `<prefix>-<millis>`.
pub fn instance_cid(prefix: &str, millis: u64) -> (r: String)
    ensures
        r@ == prefix@ + "-"@ + decimal(millis as nat),
{
    let mut s = String::new();
    push_str(&mut s, prefix);
    push_str(&mut s, "-");
    push_decimal(&mut s, millis);
    s
}

} // verus!
