use birthday_greetings::text::{chars_of, contains_text, decimal, trim, trim_end};

#[test]
fn trims_unicode_whitespace() {
    assert_eq!(trim_end(" a b \t\n\u{3000}"), " a b");
    assert_eq!(trim("\u{a0} a b \r\n"), "a b");
    assert_eq!(trim("   "), "");
    assert_eq!(trim(""), "");
}

#[test]
fn decimal_notation() {
    assert_eq!(decimal(0), "0");
    assert_eq!(decimal(2525), "2525");
    assert_eq!(decimal(u64::MAX), "18446744073709551615");
}

#[test]
fn substring_search() {
    assert!(contains_text("RCPT TO:<a@b>\n", "TO:<a@b>"));
    assert!(!contains_text("RCPT TO:<a@b>", "TO:<a@c>"));
    assert!(contains_text("abc", "abc"));
    assert!(!contains_text("ab", "abc"));
    assert!(contains_text("", ""));
    assert!(contains_text("h\u{e9}llo", "\u{e9}l"));
}

#[test]
fn chars_in_order() {
    assert_eq!(chars_of("a\u{e9}b"), vec!['a', '\u{e9}', 'b']);
}
