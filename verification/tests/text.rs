use terminate_relay::text::{begins_with, same_text};

#[test]
fn same_text_compares_character_by_character() {
    assert!(same_text("", ""));
    assert!(same_text("close", "close"));
    assert!(!same_text("close", "Close"));
    assert!(!same_text("close", "clos"));
    assert!(!same_text("clos", "close"));
    assert!(!same_text("", "x"));
    assert!(same_text("sn\u{f6}", "sn\u{f6}"));
    assert!(!same_text("sn\u{f6}", "sn\u{f8}"));
    assert!(!same_text("\u{e9}", "e\u{301}"));
}

#[test]
fn begins_with_tests_a_prefix_of_characters() {
    assert!(begins_with("terminate alice", "terminate "));
    assert!(begins_with("terminate ", "terminate "));
    assert!(!begins_with("terminate", "terminate "));
    assert!(!begins_with(" terminate alice", "terminate "));
    assert!(begins_with("anything", ""));
    assert!(begins_with("", ""));
    assert!(!begins_with("", "x"));
    assert!(begins_with("\u{2603}now", "\u{2603}"));
    assert!(!begins_with("\u{2603}now", "\u{2602}"));
}

#[test]
fn begins_with_does_not_split_a_character() {
    // U+00E9 is encoded as C3 A9 and U+00C3 as C3 83: the encodings share
    // their first byte, the characters share nothing.
    assert!(!begins_with("\u{e9}", "\u{c3}"));
    assert!(!begins_with("a\u{e9}", "a\u{c3}"));
    assert!(begins_with("a\u{e9}b", "a\u{e9}"));
}
