use scaleway::text::{chars_of, parse_decimal, parse_digits, same_text};

#[test]
fn same_text_compares_characters() {
    assert!(same_text("", ""));
    assert!(same_text("token", "token"));
    assert!(same_text("caf\u{e9}", "caf\u{e9}"));
    assert!(!same_text("token", "tokens"));
    assert!(!same_text("token", "tokeN"));
    assert!(!same_text("a", ""));
}

#[test]
fn chars_of_gives_each_character() {
    assert_eq!(chars_of(""), Vec::<char>::new());
    assert_eq!(chars_of("a\u{e9}z"), vec!['a', '\u{e9}', 'z']);
}

#[test]
fn parse_decimal_reads_digits() {
    assert_eq!(parse_decimal("0", 10), Some(0));
    assert_eq!(parse_decimal("42", 100), Some(42));
    assert_eq!(parse_decimal("007", 100), Some(7));
    assert_eq!(parse_decimal("65535", 65535), Some(65535));
    assert_eq!(parse_decimal("18446744073709551615", u64::MAX), Some(u64::MAX));
}

#[test]
fn parse_decimal_refuses_what_is_too_large() {
    assert_eq!(parse_decimal("65536", 65535), None);
    assert_eq!(parse_decimal("18446744073709551616", u64::MAX), None);
    assert_eq!(parse_decimal("99999999999999999999999999", u64::MAX), None);
    assert_eq!(parse_decimal("1", 0), None);
    assert_eq!(parse_decimal("0", 0), Some(0));
}

#[test]
fn parse_decimal_refuses_what_is_no_number() {
    assert_eq!(parse_decimal("", 10), None);
    assert_eq!(parse_decimal("-1", 10), None);
    assert_eq!(parse_decimal("+1", 10), None);
    assert_eq!(parse_decimal("1.0", 10), None);
    assert_eq!(parse_decimal("1e1", 100), None);
    assert_eq!(parse_decimal(" 1", 10), None);
    assert_eq!(parse_decimal("\u{661}", 10), None);
}

#[test]
fn parse_digits_reads_a_list_of_characters() {
    assert_eq!(parse_digits(&vec!['2', '5', '5'], 255), Some(255));
    assert_eq!(parse_digits(&vec!['2', '5', '6'], 255), None);
    assert_eq!(parse_digits(&vec![], 255), None);
}
