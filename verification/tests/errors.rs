use gui::error::{ensure_hint, ErrorEnvelope, GuiErrorCode};

#[test]
fn new_maps_legacy_code_and_adds_hint() {
    let envelope = ErrorEnvelope::new("CONFIG_LOAD", "failed loading config");
    assert_eq!(GuiErrorCode::from_legacy_code(&envelope.code), GuiErrorCode::ConfigLoad);
    assert!(envelope.message.contains("Hint:"));
}

#[test]
fn from_anyhow_with_code_preserves_legacy_code() {
    let envelope = ErrorEnvelope::with_context("STATUS_UNAVAILABLE", "status fetch failed", "ipc request timed out");
    assert_eq!(envelope.code, "STATUS_UNAVAILABLE");
    assert_eq!(
        envelope.message,
        "status fetch failed: ipc request timed out Hint: Confirm daemon reachability and destination availability, then retry."
    );
}

#[test]
fn existing_hint_is_kept() {
    assert_eq!(ensure_hint("done. Hint: wait", "other"), "done. Hint: wait");
    assert_eq!(ensure_hint("broken", "fix it"), "broken Hint: fix it");
    let twice = ensure_hint(&ensure_hint("broken", "fix it"), "again");
    assert_eq!(twice, "broken Hint: fix it");
}

#[test]
fn unknown_codes_are_internal() {
    assert_eq!(GuiErrorCode::from_legacy_code("WHATEVER"), GuiErrorCode::Internal);
    assert_eq!(GuiErrorCode::from_legacy_code("CONFLICT"), GuiErrorCode::Conflict);
    let e = ErrorEnvelope::new("WHATEVER", "x");
    assert_eq!(e.message, "x Hint: Inspect logs and report the issue if it persists.");
}

#[test]
fn display_string_joins_code_and_message() {
    let e = ErrorEnvelope::new("NOT_FOUND", "gone. Hint: look");
    assert_eq!(e.to_display_string(), "NOT_FOUND: gone. Hint: look");
}

#[test]
fn cid_errors_carry_the_correlation_id() {
    let e = ErrorEnvelope::with_cid("LIST_FAILED", "c-9", "list_versions_cmd failed: ", "disk");
    assert!(e.message.starts_with("[cid=c-9] list_versions_cmd failed: disk Hint:"));
}
