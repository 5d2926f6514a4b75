use matrix2mqtt::sanitize::sanitize;

#[test]
fn removes_hash_slash_plus() {
    assert_eq!(sanitize("#a/b+c"), "abc");
}

#[test]
fn keeps_everything_else_in_order() {
    assert_eq!(sanitize("!abc123:example.org"), "!abc123:example.org");
    assert_eq!(sanitize("room name with spaces"), "room name with spaces");
    assert_eq!(sanitize("ünï©ödé"), "ünï©ödé");
}

#[test]
fn alias_becomes_topic_safe() {
    assert_eq!(sanitize("#general:example.org"), "general:example.org");
}

#[test]
fn empty_stays_empty() {
    assert_eq!(sanitize(""), "");
}

#[test]
fn all_reserved_becomes_empty() {
    assert_eq!(sanitize("##//++"), "");
}

#[test]
fn idempotent_on_samples() {
    for s in ["#general:example.org", "a/b/c", "++##//", "", "plain"] {
        let once = sanitize(s);
        let twice = sanitize(&once);
        assert_eq!(once, twice);
    }
}
