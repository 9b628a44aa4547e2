use deltime::text::{chars_of, contains, enclose, eq_ignore_ascii_case, same_text};

#[test]
fn same_text_compares_characters() {
    assert!(same_text("", ""));
    assert!(same_text("абв", "абв"));
    assert!(!same_text("abc", "abd"));
    assert!(!same_text("abc", "ab"));
    assert!(!same_text("abc", "ABC"));
}

#[test]
fn chars_of_gives_every_character() {
    assert_eq!(chars_of(""), Vec::<char>::new());
    assert_eq!(chars_of("a⌛б"), vec!['a', '⌛', 'б']);
}

#[test]
fn enclose_joins_three_texts() {
    assert_eq!(enclose("<", "x", ">"), "<x>");
    assert_eq!(enclose("", "", ""), "");
    assert_eq!(enclose("a", "", "b"), "ab");
}

#[test]
fn case_of_ascii_letters_is_ignored() {
    assert!(eq_ignore_ascii_case("block", "BLOCK"));
    assert!(eq_ignore_ascii_case("Block", "bLOCK"));
    assert!(eq_ignore_ascii_case("", ""));
    assert!(eq_ignore_ascii_case("a1-z", "A1-Z"));
    assert!(!eq_ignore_ascii_case("block", "blocks"));
    assert!(!eq_ignore_ascii_case("block", "clock"));
    assert!(!eq_ignore_ascii_case("", "block"));
    assert!(!eq_ignore_ascii_case("@", "`"));
    assert!(!eq_ignore_ascii_case("[", "{"));
    assert!(!eq_ignore_ascii_case("Б", "б"));
    for (a, b) in [("block", "BLOCK"), ("@", "`"), ("[", "{"), ("Б", "б"), ("k", "K")] {
        assert_eq!(eq_ignore_ascii_case(a, b), a.eq_ignore_ascii_case(b));
    }
}

#[test]
fn contains_finds_a_pattern_anywhere() {
    assert!(contains("/devices/pci0000:00/usb1/1-1", "/usb"));
    assert!(contains("/usb", "/usb"));
    assert!(contains("x/usb", "/usb"));
    assert!(contains("abc", ""));
    assert!(contains("", ""));
    assert!(!contains("", "/usb"));
    assert!(!contains("/us", "/usb"));
    assert!(!contains("/devices/pci0000:00/ata1", "/usb"));
    assert!(!contains("/us/usc/u/sb", "/usb"));
    assert!(contains("//usb", "/usb"));
    assert!(contains("aaab", "aab"));
}
