use deltime::mask::mask_matches;

#[test]
fn star_stands_for_any_run_of_characters() {
    assert!(mask_matches("a.delme", "*.delme"));
    assert!(mask_matches(".delme", "*.delme"));
    assert!(mask_matches("a.b.delme", "*.delme"));
    assert!(!mask_matches("a.delme.bak", "*.delme"));
    assert!(!mask_matches("not_delme.test", "*.delme"));
    assert!(mask_matches("delme_by_extension.delme", "*.delme"));
    assert!(mask_matches("", "*"));
    assert!(mask_matches("anything at all", "*"));
    assert!(mask_matches("anything", "**"));
    assert!(mask_matches("abcXdefYghi", "abc*def*ghi"));
    assert!(!mask_matches("abcXdefYgh", "abc*def*ghi"));
    assert!(mask_matches("aaab", "*ab"));
    assert!(mask_matches("файл.tmp", "*.tmp"));
}

#[test]
fn question_mark_stands_for_one_character() {
    assert!(mask_matches("a1.log", "a?.log"));
    assert!(mask_matches("aя.log", "a?.log"));
    assert!(!mask_matches("a.log", "a?.log"));
    assert!(!mask_matches("a12.log", "a?.log"));
    assert!(!mask_matches("", "?"));
    assert!(mask_matches("x", "?"));
    assert!(mask_matches("xy", "?*"));
    assert!(!mask_matches("", "?*"));
}

#[test]
fn other_characters_stand_for_themselves() {
    assert!(mask_matches("", ""));
    assert!(mask_matches("abc", "abc"));
    assert!(!mask_matches("abc", "abd"));
    assert!(!mask_matches("abc", "ab"));
    assert!(!mask_matches("ab", "abc"));
    assert!(!mask_matches("abc", ""));
    assert!(!mask_matches("ABC", "abc"));
    assert!(mask_matches("a.b", "a.b"));
    assert!(!mask_matches("axb", "a.b"));
}
