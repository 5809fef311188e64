use gui::logs::{filter_hidden_log_lines, read_log_tail, resolve_tail_limit, tail_from_chunks, tail_lines, LogReadFailure};

#[test]
fn filter_hidden_log_lines_removes_legacy_auth_lines() {
    let input = "\
2026-02-04T00:00:00Z INFO normal\n\
S allowing without unlock\n\
[cid=save-miqzosxg-e476] AUTH_BYPASS allowing without unlock\n\
2026-02-04T00:00:01Z INFO still here\n";
    let filtered = filter_hidden_log_lines(input);
    assert!(filtered.contains("INFO normal"));
    assert!(filtered.contains("INFO still here"));
    assert!(!filtered.contains("AUTH_BYPASS"));
    assert!(!filtered.contains("allowing without unlock"));
}

#[test]
fn filtering_twice_changes_nothing_more() {
    let input = "a\nAUTH_BYPASS x\nb\r\nc";
    let once = filter_hidden_log_lines(input);
    assert_eq!(filter_hidden_log_lines(&once), once);
}

#[test]
fn tail_keeps_last_lines() {
    assert_eq!(tail_lines("one\ntwo\nthree\n", 2), "two\nthree");
    assert_eq!(tail_lines("one\ntwo", 5), "one\ntwo");
    assert_eq!(tail_lines("one\ntwo", 0), "");
    assert_eq!(tail_lines("a\r\nb\r\n", 1), "b");
}

#[test]
fn tail_limit_defaults_to_configured_lines() {
    assert_eq!(resolve_tail_limit(Some(7), 200), 7);
    assert_eq!(resolve_tail_limit(None, 200), 200);
}

#[test]
fn missing_log_reads_as_empty() {
    assert_eq!(read_log_tail(Err(LogReadFailure::NotFound), "\"/x/log\"").unwrap(), "");
    let err = read_log_tail(Err(LogReadFailure::Other("denied".to_string())), "\"/x/log\"").unwrap_err();
    assert_eq!(err, "gui::api::logs_api::read_log_tail failed to read log file \"/x/log\": denied");
    assert_eq!(read_log_tail(Ok("ok\nAUTH_BYPASS\n".to_string()), "p").unwrap(), "ok");
}

#[test]
fn tail_from_chunks_reassembles_in_file_order_and_replaces_invalid_bytes() {
    // Chunks arrive newest first, as the file is read backwards.
    let chunks = vec![b"ne\nlast\n".to_vec(), b"first\nsecond li".to_vec()];
    assert_eq!(tail_from_chunks(&chunks, 2), "second line\nlast");
    let bad = vec![vec![b'o', b'k', 0xff, b'\n']];
    assert_eq!(tail_from_chunks(&bad, 1), "ok\u{fffd}");
}

#[test]
fn filtered_text_reads_back_as_the_kept_lines() {
    let out = filter_hidden_log_lines("first\nAUTH_BYPASS used\nsecond\r\nthird");
    let lines: Vec<&str> = out.lines().collect();
    assert_eq!(lines, vec!["first", "second", "third"]);
    assert_eq!(filter_hidden_log_lines(&out), out);
}
