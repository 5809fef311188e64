//! Typed error codes and the error envelope returned across the command boundary.
use vstd::prelude::*;
use crate::text::{contains_seq, occurs_at, push_str, str_contains, str_eq};

verus! {

/// Typed GUI error codes, mapped from the legacy string codes that commands return.
#[derive(Debug, Clone, Copy, PartialEq, Eq, Structural)]
pub enum GuiErrorCode {
    ConfigLoad,
    ConfigSave,
    ConfigInvalid,
    DaemonOffline,
    StatusUnavailable,
    LogTail,
    LogExport,
    NoDesktop,
    NotFound,
    PermissionDenied,
    Timeout,
    Cancelled,
    InvalidInput,
    DependencyUnavailable,
    Unsupported,
    Conflict,
    Internal,
}

/// The legacy string code of each typed code (`INTERNAL` for the `Internal` fallback).
pub open spec fn legacy_code_text(c: GuiErrorCode) -> Seq<char> {
    match c {
        GuiErrorCode::ConfigLoad => "CONFIG_LOAD"@,
        GuiErrorCode::ConfigSave => "CONFIG_SAVE"@,
        GuiErrorCode::ConfigInvalid => "CONFIG_INVALID"@,
        GuiErrorCode::DaemonOffline => "DAEMON_OFFLINE"@,
        GuiErrorCode::StatusUnavailable => "STATUS_UNAVAILABLE"@,
        GuiErrorCode::LogTail => "LOG_TAIL"@,
        GuiErrorCode::LogExport => "LOG_EXPORT"@,
        GuiErrorCode::NoDesktop => "NO_DESKTOP"@,
        GuiErrorCode::NotFound => "NOT_FOUND"@,
        GuiErrorCode::PermissionDenied => "PERMISSION_DENIED"@,
        GuiErrorCode::Timeout => "TIMEOUT"@,
        GuiErrorCode::Cancelled => "CANCELLED"@,
        GuiErrorCode::InvalidInput => "INVALID_INPUT"@,
        GuiErrorCode::DependencyUnavailable => "DEPENDENCY_UNAVAILABLE"@,
        GuiErrorCode::Unsupported => "UNSUPPORTED"@,
        GuiErrorCode::Conflict => "CONFLICT"@,
        GuiErrorCode::Internal => "INTERNAL"@,
    }
}

/// The typed code for a legacy code string: the code whose text it is, else `Internal`.
pub open spec fn code_for_legacy(s: Seq<char>) -> GuiErrorCode {
    if s == "CONFIG_LOAD"@ {
        GuiErrorCode::ConfigLoad
    } else if s == "CONFIG_SAVE"@ {
        GuiErrorCode::ConfigSave
    } else if s == "CONFIG_INVALID"@ {
        GuiErrorCode::ConfigInvalid
    } else if s == "DAEMON_OFFLINE"@ {
        GuiErrorCode::DaemonOffline
    } else if s == "STATUS_UNAVAILABLE"@ {
        GuiErrorCode::StatusUnavailable
    } else if s == "LOG_TAIL"@ {
        GuiErrorCode::LogTail
    } else if s == "LOG_EXPORT"@ {
        GuiErrorCode::LogExport
    } else if s == "NO_DESKTOP"@ {
        GuiErrorCode::NoDesktop
    } else if s == "NOT_FOUND"@ {
        GuiErrorCode::NotFound
    } else if s == "PERMISSION_DENIED"@ {
        GuiErrorCode::PermissionDenied
    } else if s == "TIMEOUT"@ {
        GuiErrorCode::Timeout
    } else if s == "CANCELLED"@ {
        GuiErrorCode::Cancelled
    } else if s == "INVALID_INPUT"@ {
        GuiErrorCode::InvalidInput
    } else if s == "DEPENDENCY_UNAVAILABLE"@ {
        GuiErrorCode::DependencyUnavailable
    } else if s == "UNSUPPORTED"@ {
        GuiErrorCode::Unsupported
    } else if s == "CONFLICT"@ {
        GuiErrorCode::Conflict
    } else {
        GuiErrorCode::Internal
    }
}

/// The default actionable hint of each code.
pub open spec fn hint_text(c: GuiErrorCode) -> Seq<char> {
    match c {
        GuiErrorCode::ConfigLoad => "Fix config path or permissions, then reload settings."@,
        GuiErrorCode::ConfigSave => "Resolve validation or permission issues before saving again."@,
        GuiErrorCode::ConfigInvalid => "Correct invalid configuration values and retry."@,
        GuiErrorCode::DaemonOffline => "Start the daemon service, then retry the action."@,
        GuiErrorCode::StatusUnavailable => "Confirm daemon reachability and destination availability, then retry."@,
        GuiErrorCode::LogTail => "Confirm log path availability and permissions, then retry log tail."@,
        GuiErrorCode::LogExport => "Confirm Desktop destination and log readability, then retry export."@,
        GuiErrorCode::NoDesktop => "Set a writable Desktop directory for log and diagnostic exports."@,
        GuiErrorCode::NotFound => "Ensure required files and directories exist."@,
        GuiErrorCode::PermissionDenied => "Grant required filesystem/service permissions."@,
        GuiErrorCode::Timeout => "Retry after dependency recovery or increase timeout settings."@,
        GuiErrorCode::Cancelled => "Retry when cancellation and shutdown conditions are cleared."@,
        GuiErrorCode::InvalidInput => "Adjust inputs to satisfy command constraints."@,
        GuiErrorCode::DependencyUnavailable => "Check dependent services and retry."@,
        GuiErrorCode::Unsupported => "Use a supported platform or feature combination."@,
        GuiErrorCode::Conflict => "Resolve conflicting state and retry."@,
        GuiErrorCode::Internal => "Inspect logs and report the issue if it persists."@,
    }
}

impl GuiErrorCode {
    /// The default actionable hint for this error class.
    pub fn hint(self) -> (r: &'static str)
        ensures
            r@ == hint_text(self),
    {
        match self {
            GuiErrorCode::ConfigLoad => "Fix config path or permissions, then reload settings.",
            GuiErrorCode::ConfigSave => "Resolve validation or permission issues before saving again.",
            GuiErrorCode::ConfigInvalid => "Correct invalid configuration values and retry.",
            GuiErrorCode::DaemonOffline => "Start the daemon service, then retry the action.",
            GuiErrorCode::StatusUnavailable => {
                "Confirm daemon reachability and destination availability, then retry."
            },
            GuiErrorCode::LogTail => "Confirm log path availability and permissions, then retry log tail.",
            GuiErrorCode::LogExport => {
                "Confirm Desktop destination and log readability, then retry export."
            },
            GuiErrorCode::NoDesktop => "Set a writable Desktop directory for log and diagnostic exports.",
            GuiErrorCode::NotFound => "Ensure required files and directories exist.",
            GuiErrorCode::PermissionDenied => "Grant required filesystem/service permissions.",
            GuiErrorCode::Timeout => "Retry after dependency recovery or increase timeout settings.",
            GuiErrorCode::Cancelled => "Retry when cancellation and shutdown conditions are cleared.",
            GuiErrorCode::InvalidInput => "Adjust inputs to satisfy command constraints.",
            GuiErrorCode::DependencyUnavailable => "Check dependent services and retry.",
            GuiErrorCode::Unsupported => "Use a supported platform or feature combination.",
            GuiErrorCode::Conflict => "Resolve conflicting state and retry.",
            GuiErrorCode::Internal => "Inspect logs and report the issue if it persists.",
        }
    }

    /// Maps a legacy string code to its typed code; unknown codes map to `Internal`.
    pub fn from_legacy_code(code: &str) -> (r: GuiErrorCode)
        ensures
            r == code_for_legacy(code@),
    {
        if str_eq(code, "CONFIG_LOAD") {
            GuiErrorCode::ConfigLoad
        } else if str_eq(code, "CONFIG_SAVE") {
            GuiErrorCode::ConfigSave
        } else if str_eq(code, "CONFIG_INVALID") {
            GuiErrorCode::ConfigInvalid
        } else if str_eq(code, "DAEMON_OFFLINE") {
            GuiErrorCode::DaemonOffline
        } else if str_eq(code, "STATUS_UNAVAILABLE") {
            GuiErrorCode::StatusUnavailable
        } else if str_eq(code, "LOG_TAIL") {
            GuiErrorCode::LogTail
        } else if str_eq(code, "LOG_EXPORT") {
            GuiErrorCode::LogExport
        } else if str_eq(code, "NO_DESKTOP") {
            GuiErrorCode::NoDesktop
        } else if str_eq(code, "NOT_FOUND") {
            GuiErrorCode::NotFound
        } else if str_eq(code, "PERMISSION_DENIED") {
            GuiErrorCode::PermissionDenied
        } else if str_eq(code, "TIMEOUT") {
            GuiErrorCode::Timeout
        } else if str_eq(code, "CANCELLED") {
            GuiErrorCode::Cancelled
        } else if str_eq(code, "INVALID_INPUT") {
            GuiErrorCode::InvalidInput
        } else if str_eq(code, "DEPENDENCY_UNAVAILABLE") {
            GuiErrorCode::DependencyUnavailable
        } else if str_eq(code, "UNSUPPORTED") {
            GuiErrorCode::Unsupported
        } else if str_eq(code, "CONFLICT") {
            GuiErrorCode::Conflict
        } else {
            GuiErrorCode::Internal
        }
    }
}

/// `message` unchanged when it already carries a hint, else with ` Hint: <hint>` appended.
pub open spec fn with_hint(message: Seq<char>, hint: Seq<char>) -> Seq<char> {
    if contains_seq(message, "Hint:"@) {
        message
    } else {
        message + " Hint: "@ + hint
    }
}

/// Appends a hint to an error message when one is not already present.
pub fn ensure_hint(message: &str, hint: &str) -> (r: String)
    ensures
        r@ == with_hint(message@, hint@),
{
    let mut out = String::new();
    push_str(&mut out, message);
    if str_contains(message, "Hint:") {
        return out;
    }
    push_str(&mut out, " Hint: ");
    push_str(&mut out, hint);
    out
}

/// Error payload returned by GUI commands: a legacy code and an actionable message.
#[derive(Debug)]
pub struct ErrorEnvelope {
    pub code: String,
    pub message: String,
}

/// The message an envelope built from `code` and `message` carries.
pub open spec fn envelope_message(code: Seq<char>, message: Seq<char>) -> Seq<char> {
    with_hint(message, hint_text(code_for_legacy(code)))
}

impl ErrorEnvelope {
    /// Creates an envelope from a legacy code and a message; the message gains the
    /// code's default hint unless it already carries one.
    pub fn new(code: &str, message: &str) -> (r: ErrorEnvelope)
        ensures
            r.code@ == code@,
            r.message@ == envelope_message(code@, message@),
    {
        let kind = GuiErrorCode::from_legacy_code(code);
        let mut c = String::new();
        push_str(&mut c, code);
        ErrorEnvelope { code: c, message: ensure_hint(message, kind.hint()) }
    }

    /// Creates an envelope whose message is `"<context>: <detail>"`, where `detail` is the
    /// already rendered and redacted description of the failure.
    pub fn with_context(code: &str, context: &str, detail: &str) -> (r: ErrorEnvelope)
        ensures
            r.code@ == code@,
            r.message@ == envelope_message(code@, context@ + ": "@ + detail@),
    {
        let mut raw = String::new();
        push_str(&mut raw, context);
        push_str(&mut raw, ": ");
        push_str(&mut raw, detail);
        ErrorEnvelope::new(code, raw.as_str())
    }

    /// Creates an envelope whose message is `"[cid=<cid>] <text><detail>"`: a failure
    /// traced to one command invocation.
    pub fn with_cid(code: &str, cid: &str, text: &str, detail: &str) -> (r: ErrorEnvelope)
        ensures
            r.code@ == code@,
            r.message@ == envelope_message(code@, "[cid="@ + cid@ + "] "@ + text@ + detail@),
    {
        let mut raw = String::new();
        push_str(&mut raw, "[cid=");
        push_str(&mut raw, cid);
        push_str(&mut raw, "] ");
        push_str(&mut raw, text);
        push_str(&mut raw, detail);
        ErrorEnvelope::new(code, raw.as_str())
    }

    /// `"<code>: <message>"`, the text the envelope shows when logged.
    pub fn to_display_string(&self) -> (r: String)
        ensures
            r@ == self.code@ + ": "@ + self.message@,
    {
        let mut out = String::new();
        push_str(&mut out, self.code.as_str());
        push_str(&mut out, ": ");
        push_str(&mut out, self.message.as_str());
        out
    }

    /// A field-by-field copy of the envelope.
    pub fn duplicate(&self) -> (r: ErrorEnvelope)
        ensures
            r == *self,
            r.code@ == self.code@,
            r.message@ == self.message@,
    {
        ErrorEnvelope { code: self.code.clone(), message: self.message.clone() }
    }
}

/// Every message produced by `with_hint` carries a `Hint:` marker.
pub proof fn lemma_with_hint_has_marker(message: Seq<char>, hint: Seq<char>)
    ensures
        contains_seq(with_hint(message, hint), "Hint:"@),
{
    reveal_strlit("Hint:");
    reveal_strlit(" Hint: ");
    if !contains_seq(message, "Hint:"@) {
        let full = message + " Hint: "@ + hint;
        let i: int = message.len() as int + 1;
        assert(full.subrange(i, i + 5) =~= "Hint:"@);
        assert(occurs_at(full, "Hint:"@, i));
    }
}

/// Adding a hint is idempotent: a message that went through `with_hint` is left unchanged
/// by a second pass, whatever hint the second pass offers.
pub proof fn lemma_with_hint_idempotent(message: Seq<char>, hint: Seq<char>, other: Seq<char>)
    ensures
        with_hint(with_hint(message, hint), other) == with_hint(message, hint),
{
    lemma_with_hint_has_marker(message, hint);
}

/// Adding a hint never changes the message it starts from: the result begins with it, and
/// is exactly it when it already carried a hint.
pub proof fn lemma_with_hint_keeps_message(message: Seq<char>, hint: Seq<char>)
    ensures
        with_hint(message, hint).len() >= message.len(),
        with_hint(message, hint).take(message.len() as int) == message,
        contains_seq(message, "Hint:"@) ==> with_hint(message, hint) == message,
{
    assert(with_hint(message, hint).take(message.len() as int) =~= message);
}

/// No default hint contains a `:`.
proof fn lemma_hint_has_no_colon(c: GuiErrorCode)
    ensures
        forall|k: int| 0 <= k < hint_text(c).len() ==> hint_text(c)[k] != ':',
{
    match c {
        GuiErrorCode::ConfigLoad => reveal_strlit("Fix config path or permissions, then reload settings."),
        GuiErrorCode::ConfigSave => reveal_strlit("Resolve validation or permission issues before saving again."),
        GuiErrorCode::ConfigInvalid => reveal_strlit("Correct invalid configuration values and retry."),
        GuiErrorCode::DaemonOffline => reveal_strlit("Start the daemon service, then retry the action."),
        GuiErrorCode::StatusUnavailable => reveal_strlit("Confirm daemon reachability and destination availability, then retry."),
        GuiErrorCode::LogTail => reveal_strlit("Confirm log path availability and permissions, then retry log tail."),
        GuiErrorCode::LogExport => reveal_strlit("Confirm Desktop destination and log readability, then retry export."),
        GuiErrorCode::NoDesktop => reveal_strlit("Set a writable Desktop directory for log and diagnostic exports."),
        GuiErrorCode::NotFound => reveal_strlit("Ensure required files and directories exist."),
        GuiErrorCode::PermissionDenied => reveal_strlit("Grant required filesystem/service permissions."),
        GuiErrorCode::Timeout => reveal_strlit("Retry after dependency recovery or increase timeout settings."),
        GuiErrorCode::Cancelled => reveal_strlit("Retry when cancellation and shutdown conditions are cleared."),
        GuiErrorCode::InvalidInput => reveal_strlit("Adjust inputs to satisfy command constraints."),
        GuiErrorCode::DependencyUnavailable => reveal_strlit("Check dependent services and retry."),
        GuiErrorCode::Unsupported => reveal_strlit("Use a supported platform or feature combination."),
        GuiErrorCode::Conflict => reveal_strlit("Resolve conflicting state and retry."),
        GuiErrorCode::Internal => reveal_strlit("Inspect logs and report the issue if it persists."),
    }
}

/// The `Hint:` marker appears in an envelope message exactly as often as it should: a
/// message that carried it is kept as it is, and any other message gains it at exactly
/// one position (the hint appended after it).
pub proof fn lemma_hint_marker_once(code: Seq<char>, message: Seq<char>)
    ensures
        contains_seq(message, "Hint:"@) ==> envelope_message(code, message) == message,
        !contains_seq(message, "Hint:"@) ==> {
            let r = envelope_message(code, message);
            &&& occurs_at(r, "Hint:"@, message.len() as int + 1)
            &&& forall|j: int| occurs_at(r, "Hint:"@, j) ==> j == message.len() as int + 1
        },
{
    if !contains_seq(message, "Hint:"@) {
        let h = hint_text(code_for_legacy(code));
        let r = envelope_message(code, message);
        let marker = "Hint:"@;
        let mid = " Hint: "@;
        reveal_strlit("Hint:");
        reveal_strlit(" Hint: ");
        lemma_hint_has_no_colon(code_for_legacy(code));
        assert(r == message + mid + h);
        let n = message.len() as int;
        assert(r.subrange(n + 1, n + 6) =~= marker);
        assert forall|j: int| occurs_at(r, marker, j) implies j == n + 1 by {
            assert(r.subrange(j, j + 5) == marker);
            assert(r[j + 4] == r.subrange(j, j + 5)[4]);
            assert(r[j + 4] == ':');
            if j + 5 <= n {
                assert(r.subrange(j, j + 5) =~= message.subrange(j, j + 5));
                assert(occurs_at(message, marker, j));
            } else if j + 4 >= n + 7 {
                assert(r[j + 4] == h[j + 4 - n - 7]);
            } else {
                assert(r[j + 4] == mid[j + 4 - n]);
                assert(j + 4 - n == 5);
            }
        }
    }
}

/// Every envelope message carries a `Hint:` marker, whatever code and message it was built from.
pub proof fn lemma_envelope_message_has_hint(code: Seq<char>, message: Seq<char>)
    ensures
        contains_seq(envelope_message(code, message), "Hint:"@),
{
    lemma_with_hint_has_marker(message, hint_text(code_for_legacy(code)));
}

/// Every typed code maps back from its own legacy text.
pub proof fn lemma_legacy_code_round_trip(c: GuiErrorCode)
    ensures
        code_for_legacy(legacy_code_text(c)) == c,
{
    reveal_strlit("CONFIG_LOAD");
    reveal_strlit("CONFIG_SAVE");
    reveal_strlit("CONFIG_INVALID");
    reveal_strlit("DAEMON_OFFLINE");
    reveal_strlit("STATUS_UNAVAILABLE");
    reveal_strlit("LOG_TAIL");
    reveal_strlit("LOG_EXPORT");
    reveal_strlit("NO_DESKTOP");
    reveal_strlit("NOT_FOUND");
    reveal_strlit("PERMISSION_DENIED");
    reveal_strlit("TIMEOUT");
    reveal_strlit("CANCELLED");
    reveal_strlit("INVALID_INPUT");
    reveal_strlit("DEPENDENCY_UNAVAILABLE");
    reveal_strlit("UNSUPPORTED");
    reveal_strlit("CONFLICT");
    reveal_strlit("INTERNAL");
    match c {
        GuiErrorCode::ConfigLoad => {
        },
        GuiErrorCode::ConfigSave => {
            assert("CONFIG_SAVE"@[7] != "CONFIG_LOAD"@[7]);
        },
        GuiErrorCode::ConfigInvalid => {
            assert("CONFIG_INVALID"@.len() != "CONFIG_LOAD"@.len());
            assert("CONFIG_INVALID"@.len() != "CONFIG_SAVE"@.len());
        },
        GuiErrorCode::DaemonOffline => {
            assert("DAEMON_OFFLINE"@.len() != "CONFIG_LOAD"@.len());
            assert("DAEMON_OFFLINE"@.len() != "CONFIG_SAVE"@.len());
            assert("DAEMON_OFFLINE"@[0] != "CONFIG_INVALID"@[0]);
        },
        GuiErrorCode::StatusUnavailable => {
            assert("STATUS_UNAVAILABLE"@.len() != "CONFIG_LOAD"@.len());
            assert("STATUS_UNAVAILABLE"@.len() != "CONFIG_SAVE"@.len());
            assert("STATUS_UNAVAILABLE"@.len() != "CONFIG_INVALID"@.len());
            assert("STATUS_UNAVAILABLE"@.len() != "DAEMON_OFFLINE"@.len());
        },
        GuiErrorCode::LogTail => {
            assert("LOG_TAIL"@.len() != "CONFIG_LOAD"@.len());
            assert("LOG_TAIL"@.len() != "CONFIG_SAVE"@.len());
            assert("LOG_TAIL"@.len() != "CONFIG_INVALID"@.len());
            assert("LOG_TAIL"@.len() != "DAEMON_OFFLINE"@.len());
            assert("LOG_TAIL"@.len() != "STATUS_UNAVAILABLE"@.len());
        },
        GuiErrorCode::LogExport => {
            assert("LOG_EXPORT"@.len() != "CONFIG_LOAD"@.len());
            assert("LOG_EXPORT"@.len() != "CONFIG_SAVE"@.len());
            assert("LOG_EXPORT"@.len() != "CONFIG_INVALID"@.len());
            assert("LOG_EXPORT"@.len() != "DAEMON_OFFLINE"@.len());
            assert("LOG_EXPORT"@.len() != "STATUS_UNAVAILABLE"@.len());
            assert("LOG_EXPORT"@.len() != "LOG_TAIL"@.len());
        },
        GuiErrorCode::NoDesktop => {
            assert("NO_DESKTOP"@.len() != "CONFIG_LOAD"@.len());
            assert("NO_DESKTOP"@.len() != "CONFIG_SAVE"@.len());
            assert("NO_DESKTOP"@.len() != "CONFIG_INVALID"@.len());
            assert("NO_DESKTOP"@.len() != "DAEMON_OFFLINE"@.len());
            assert("NO_DESKTOP"@.len() != "STATUS_UNAVAILABLE"@.len());
            assert("NO_DESKTOP"@.len() != "LOG_TAIL"@.len());
            assert("NO_DESKTOP"@[0] != "LOG_EXPORT"@[0]);
        },
        GuiErrorCode::NotFound => {
            assert("NOT_FOUND"@.len() != "CONFIG_LOAD"@.len());
            assert("NOT_FOUND"@.len() != "CONFIG_SAVE"@.len());
            assert("NOT_FOUND"@.len() != "CONFIG_INVALID"@.len());
            assert("NOT_FOUND"@.len() != "DAEMON_OFFLINE"@.len());
            assert("NOT_FOUND"@.len() != "STATUS_UNAVAILABLE"@.len());
            assert("NOT_FOUND"@.len() != "LOG_TAIL"@.len());
            assert("NOT_FOUND"@.len() != "LOG_EXPORT"@.len());
            assert("NOT_FOUND"@.len() != "NO_DESKTOP"@.len());
        },
        GuiErrorCode::PermissionDenied => {
            assert("PERMISSION_DENIED"@.len() != "CONFIG_LOAD"@.len());
            assert("PERMISSION_DENIED"@.len() != "CONFIG_SAVE"@.len());
            assert("PERMISSION_DENIED"@.len() != "CONFIG_INVALID"@.len());
            assert("PERMISSION_DENIED"@.len() != "DAEMON_OFFLINE"@.len());
            assert("PERMISSION_DENIED"@.len() != "STATUS_UNAVAILABLE"@.len());
            assert("PERMISSION_DENIED"@.len() != "LOG_TAIL"@.len());
            assert("PERMISSION_DENIED"@.len() != "LOG_EXPORT"@.len());
            assert("PERMISSION_DENIED"@.len() != "NO_DESKTOP"@.len());
            assert("PERMISSION_DENIED"@.len() != "NOT_FOUND"@.len());
        },
        GuiErrorCode::Timeout => {
            assert("TIMEOUT"@.len() != "CONFIG_LOAD"@.len());
            assert("TIMEOUT"@.len() != "CONFIG_SAVE"@.len());
            assert("TIMEOUT"@.len() != "CONFIG_INVALID"@.len());
            assert("TIMEOUT"@.len() != "DAEMON_OFFLINE"@.len());
            assert("TIMEOUT"@.len() != "STATUS_UNAVAILABLE"@.len());
            assert("TIMEOUT"@.len() != "LOG_TAIL"@.len());
            assert("TIMEOUT"@.len() != "LOG_EXPORT"@.len());
            assert("TIMEOUT"@.len() != "NO_DESKTOP"@.len());
            assert("TIMEOUT"@.len() != "NOT_FOUND"@.len());
            assert("TIMEOUT"@.len() != "PERMISSION_DENIED"@.len());
        },
        GuiErrorCode::Cancelled => {
            assert("CANCELLED"@.len() != "CONFIG_LOAD"@.len());
            assert("CANCELLED"@.len() != "CONFIG_SAVE"@.len());
            assert("CANCELLED"@.len() != "CONFIG_INVALID"@.len());
            assert("CANCELLED"@.len() != "DAEMON_OFFLINE"@.len());
            assert("CANCELLED"@.len() != "STATUS_UNAVAILABLE"@.len());
            assert("CANCELLED"@.len() != "LOG_TAIL"@.len());
            assert("CANCELLED"@.len() != "LOG_EXPORT"@.len());
            assert("CANCELLED"@.len() != "NO_DESKTOP"@.len());
            assert("CANCELLED"@[0] != "NOT_FOUND"@[0]);
            assert("CANCELLED"@.len() != "PERMISSION_DENIED"@.len());
            assert("CANCELLED"@.len() != "TIMEOUT"@.len());
        },
        GuiErrorCode::InvalidInput => {
            assert("INVALID_INPUT"@.len() != "CONFIG_LOAD"@.len());
            assert("INVALID_INPUT"@.len() != "CONFIG_SAVE"@.len());
            assert("INVALID_INPUT"@.len() != "CONFIG_INVALID"@.len());
            assert("INVALID_INPUT"@.len() != "DAEMON_OFFLINE"@.len());
            assert("INVALID_INPUT"@.len() != "STATUS_UNAVAILABLE"@.len());
            assert("INVALID_INPUT"@.len() != "LOG_TAIL"@.len());
            assert("INVALID_INPUT"@.len() != "LOG_EXPORT"@.len());
            assert("INVALID_INPUT"@.len() != "NO_DESKTOP"@.len());
            assert("INVALID_INPUT"@.len() != "NOT_FOUND"@.len());
            assert("INVALID_INPUT"@.len() != "PERMISSION_DENIED"@.len());
            assert("INVALID_INPUT"@.len() != "TIMEOUT"@.len());
            assert("INVALID_INPUT"@.len() != "CANCELLED"@.len());
        },
        GuiErrorCode::DependencyUnavailable => {
            assert("DEPENDENCY_UNAVAILABLE"@.len() != "CONFIG_LOAD"@.len());
            assert("DEPENDENCY_UNAVAILABLE"@.len() != "CONFIG_SAVE"@.len());
            assert("DEPENDENCY_UNAVAILABLE"@.len() != "CONFIG_INVALID"@.len());
            assert("DEPENDENCY_UNAVAILABLE"@.len() != "DAEMON_OFFLINE"@.len());
            assert("DEPENDENCY_UNAVAILABLE"@.len() != "STATUS_UNAVAILABLE"@.len());
            assert("DEPENDENCY_UNAVAILABLE"@.len() != "LOG_TAIL"@.len());
            assert("DEPENDENCY_UNAVAILABLE"@.len() != "LOG_EXPORT"@.len());
            assert("DEPENDENCY_UNAVAILABLE"@.len() != "NO_DESKTOP"@.len());
            assert("DEPENDENCY_UNAVAILABLE"@.len() != "NOT_FOUND"@.len());
            assert("DEPENDENCY_UNAVAILABLE"@.len() != "PERMISSION_DENIED"@.len());
            assert("DEPENDENCY_UNAVAILABLE"@.len() != "TIMEOUT"@.len());
            assert("DEPENDENCY_UNAVAILABLE"@.len() != "CANCELLED"@.len());
            assert("DEPENDENCY_UNAVAILABLE"@.len() != "INVALID_INPUT"@.len());
        },
        GuiErrorCode::Unsupported => {
            assert("UNSUPPORTED"@[0] != "CONFIG_LOAD"@[0]);
            assert("UNSUPPORTED"@[0] != "CONFIG_SAVE"@[0]);
            assert("UNSUPPORTED"@.len() != "CONFIG_INVALID"@.len());
            assert("UNSUPPORTED"@.len() != "DAEMON_OFFLINE"@.len());
            assert("UNSUPPORTED"@.len() != "STATUS_UNAVAILABLE"@.len());
            assert("UNSUPPORTED"@.len() != "LOG_TAIL"@.len());
            assert("UNSUPPORTED"@.len() != "LOG_EXPORT"@.len());
            assert("UNSUPPORTED"@.len() != "NO_DESKTOP"@.len());
            assert("UNSUPPORTED"@.len() != "NOT_FOUND"@.len());
            assert("UNSUPPORTED"@.len() != "PERMISSION_DENIED"@.len());
            assert("UNSUPPORTED"@.len() != "TIMEOUT"@.len());
            assert("UNSUPPORTED"@.len() != "CANCELLED"@.len());
            assert("UNSUPPORTED"@.len() != "INVALID_INPUT"@.len());
            assert("UNSUPPORTED"@.len() != "DEPENDENCY_UNAVAILABLE"@.len());
        },
        GuiErrorCode::Conflict => {
            assert("CONFLICT"@.len() != "CONFIG_LOAD"@.len());
            assert("CONFLICT"@.len() != "CONFIG_SAVE"@.len());
            assert("CONFLICT"@.len() != "CONFIG_INVALID"@.len());
            assert("CONFLICT"@.len() != "DAEMON_OFFLINE"@.len());
            assert("CONFLICT"@.len() != "STATUS_UNAVAILABLE"@.len());
            assert("CONFLICT"@[0] != "LOG_TAIL"@[0]);
            assert("CONFLICT"@.len() != "LOG_EXPORT"@.len());
            assert("CONFLICT"@.len() != "NO_DESKTOP"@.len());
            assert("CONFLICT"@.len() != "NOT_FOUND"@.len());
            assert("CONFLICT"@.len() != "PERMISSION_DENIED"@.len());
            assert("CONFLICT"@.len() != "TIMEOUT"@.len());
            assert("CONFLICT"@.len() != "CANCELLED"@.len());
            assert("CONFLICT"@.len() != "INVALID_INPUT"@.len());
            assert("CONFLICT"@.len() != "DEPENDENCY_UNAVAILABLE"@.len());
            assert("CONFLICT"@.len() != "UNSUPPORTED"@.len());
        },
        GuiErrorCode::Internal => {
            assert("INTERNAL"@.len() != "CONFIG_LOAD"@.len());
            assert("INTERNAL"@.len() != "CONFIG_SAVE"@.len());
            assert("INTERNAL"@.len() != "CONFIG_INVALID"@.len());
            assert("INTERNAL"@.len() != "DAEMON_OFFLINE"@.len());
            assert("INTERNAL"@.len() != "STATUS_UNAVAILABLE"@.len());
            assert("INTERNAL"@[0] != "LOG_TAIL"@[0]);
            assert("INTERNAL"@.len() != "LOG_EXPORT"@.len());
            assert("INTERNAL"@.len() != "NO_DESKTOP"@.len());
            assert("INTERNAL"@.len() != "NOT_FOUND"@.len());
            assert("INTERNAL"@.len() != "PERMISSION_DENIED"@.len());
            assert("INTERNAL"@.len() != "TIMEOUT"@.len());
            assert("INTERNAL"@.len() != "CANCELLED"@.len());
            assert("INTERNAL"@.len() != "INVALID_INPUT"@.len());
            assert("INTERNAL"@.len() != "DEPENDENCY_UNAVAILABLE"@.len());
            assert("INTERNAL"@.len() != "UNSUPPORTED"@.len());
            assert("INTERNAL"@[0] != "CONFLICT"@[0]);
        },
    }
}

} // verus!
