use xdsign::text::{decimal, equal_text, split_and_trim, trim};

#[test]
fn trim_removes_unicode_white_space() {
    assert_eq!(trim("  a b \t\n"), "a b");
    assert_eq!(trim("\u{3000}名字\u{a0}"), "名字");
    assert_eq!(trim("   "), "");
    assert_eq!(trim(""), "");
    assert_eq!(trim("x"), "x");
}

#[test]
fn trim_agrees_with_std() {
    for s in ["", " ", "a", " a ", "\u{2028}b\u{205f}", "\u{85}c d\u{200a}", "\u{200b}e"] {
        assert_eq!(trim(s), s.trim());
    }
}

#[test]
fn split_and_trim_splits_at_every_separator() {
    let chars: Vec<char> = "a, b,,c ".chars().collect();
    assert_eq!(split_and_trim(&chars, ','), vec!["a", "b", "", "c"]);
    let chars: Vec<char> = "".chars().collect();
    assert_eq!(split_and_trim(&chars, ','), vec![""]);
    let chars: Vec<char> = ",".chars().collect();
    assert_eq!(split_and_trim(&chars, ','), vec!["", ""]);
}

#[test]
fn decimal_matches_display() {
    for n in [0i64, 7, 10, 42, -1, -10, 1234567890, i64::MAX, i64::MIN] {
        assert_eq!(decimal(n), n.to_string());
    }
}

#[test]
fn equal_text_compares_characters() {
    assert!(equal_text("南校区", "南校区"));
    assert!(!equal_text("南校区", "北校区"));
    assert!(!equal_text("a", "ab"));
    assert!(equal_text("", ""));
}
