use interstellar_command::text::contains_id;
use interstellar_command::text::decimal_string;
use interstellar_command::text::is_space_char;
use interstellar_command::text::parse_u8;
use interstellar_command::text::same_text;
use interstellar_command::text::signed_decimal_string;
use interstellar_command::text::split_words;

#[test]
fn decimal_writes_digits_without_leading_zero() {
    assert_eq!(decimal_string(0), "0");
    assert_eq!(decimal_string(7), "7");
    assert_eq!(decimal_string(10), "10");
    assert_eq!(decimal_string(255), "255");
    assert_eq!(decimal_string(1000000), "1000000");
    assert_eq!(decimal_string(u64::MAX), "18446744073709551615");
}

#[test]
fn signed_decimal_writes_a_minus_sign() {
    assert_eq!(signed_decimal_string(0), "0");
    assert_eq!(signed_decimal_string(42), "42");
    assert_eq!(signed_decimal_string(-5), "-5");
    assert_eq!(signed_decimal_string(i64::MAX), "9223372036854775807");
    assert_eq!(signed_decimal_string(i64::MIN), "-9223372036854775808");
}

#[test]
fn parse_u8_reads_digits_and_plus_sign() {
    assert_eq!(parse_u8("0"), Some(0));
    assert_eq!(parse_u8("7"), Some(7));
    assert_eq!(parse_u8("007"), Some(7));
    assert_eq!(parse_u8("+12"), Some(12));
    assert_eq!(parse_u8("255"), Some(255));
    assert_eq!(parse_u8("0000000000255"), Some(255));
}

#[test]
fn parse_u8_rejects_everything_else() {
    assert_eq!(parse_u8(""), None);
    assert_eq!(parse_u8("+"), None);
    assert_eq!(parse_u8("-1"), None);
    assert_eq!(parse_u8("256"), None);
    assert_eq!(parse_u8("99999999999999999999"), None);
    assert_eq!(parse_u8("1a"), None);
    assert_eq!(parse_u8("a1"), None);
    assert_eq!(parse_u8(" 1"), None);
    assert_eq!(parse_u8("1 "), None);
    assert_eq!(parse_u8("++1"), None);
    assert_eq!(parse_u8("１"), None);
}

#[test]
fn parse_u8_agrees_with_the_standard_parser() {
    for text in ["", "+", "0", "+0", "12", "255", "256", "300", "-3", "1x", "00", "+255", "+256"] {
        assert_eq!(parse_u8(text), text.parse::<u8>().ok());
    }
    for n in 0..=255u32 {
        assert_eq!(parse_u8(&n.to_string()), Some(n as u8));
    }
}

#[test]
fn contains_id_finds_listed_ids_only() {
    let ids = vec![3u8, 1, 4];
    assert!(contains_id(&ids, 3));
    assert!(contains_id(&ids, 4));
    assert!(!contains_id(&ids, 2));
    assert!(!contains_id(&Vec::new(), 0));
}

#[test]
fn same_text_compares_characters() {
    assert!(same_text("move", "move"));
    assert!(!same_text("move", "Move"));
    assert!(!same_text("move", "mov"));
    assert!(same_text("", ""));
}

#[test]
fn white_space_is_the_unicode_property() {
    for code in 0..=0x10FFFFu32 {
        if let Some(c) = char::from_u32(code) {
            assert_eq!(is_space_char(c), c.is_whitespace());
        }
    }
}

#[test]
fn words_are_runs_between_white_space() {
    assert_eq!(split_words("move 3"), vec!["move".to_string(), "3".to_string()]);
    assert_eq!(split_words("  a  bc \t d\n"), vec!["a".to_string(), "bc".to_string(), "d".to_string()]);
    assert_eq!(split_words("solo"), vec!["solo".to_string()]);
    assert!(split_words("").is_empty());
    assert!(split_words(" \t\r\n ").is_empty());
    for text in [
        "",
        " ",
        "x",
        " x",
        "x ",
        "scan  12",
        "\u{3000}wide\u{2003}gap\u{a0}here",
        "tab\tnew\nline\r\nend",
        "é ü  ß\u{85}z",
        "a\u{200b}b c",
    ] {
        let expected: Vec<String> = text.split_whitespace().map(|w| w.to_string()).collect();
        assert_eq!(split_words(text), expected);
    }
}
