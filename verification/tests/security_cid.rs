use gui::observability::cid;

#[test]
fn cid_prefix_and_unique() {
    let a = cid("test", None, 0);
    let b = cid("test", None, 1);
    assert!(a.starts_with("test-"), "security_cid::cid_prefix_and_unique missing prefix");
    assert_ne!(a, b, "security_cid::cid_prefix_and_unique expected unique cids");
}

#[test]
fn cid_has_prefix_millis_and_sequence_number() {
    let a = cid("diag", None, 41);
    let parts: Vec<&str> = a.split('-').collect();
    assert_eq!(parts.len(), 3);
    assert_eq!(parts[0], "diag");
    assert!(parts[1].parse::<i64>().is_ok());
    assert_eq!(parts[2], "41");
}
