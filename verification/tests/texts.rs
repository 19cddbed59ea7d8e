use toggl_rs::text::{decimal, parse_index, trim_end, unsigned_decimal};

#[test]
fn decimal_of_signed_numbers() {
    assert_eq!(decimal(0), "0");
    assert_eq!(decimal(7), "7");
    assert_eq!(decimal(10), "10");
    assert_eq!(decimal(42), "42");
    assert_eq!(decimal(-1), "-1");
    assert_eq!(decimal(-120), "-120");
    assert_eq!(decimal(i64::MAX), "9223372036854775807");
    assert_eq!(decimal(i64::MIN), "-9223372036854775808");
}

#[test]
fn decimal_of_unsigned_numbers() {
    assert_eq!(unsigned_decimal(0), "0");
    assert_eq!(unsigned_decimal(9), "9");
    assert_eq!(unsigned_decimal(1_000), "1000");
    assert_eq!(unsigned_decimal(u64::MAX), "18446744073709551615");
}

#[test]
fn trim_end_removes_trailing_white_space_only() {
    assert_eq!(trim_end("token\n"), "token");
    assert_eq!(trim_end("token \t\r\n\u{a0}\u{3000}"), "token");
    assert_eq!(trim_end("  to ken"), "  to ken");
    assert_eq!(trim_end(" \n "), "");
    assert_eq!(trim_end(""), "");
    assert_eq!(trim_end("\u{e9}t\u{e9} "), "\u{e9}t\u{e9}");
}

#[test]
fn parse_index_reads_decimal_digits() {
    assert_eq!(parse_index("0"), Some(0));
    assert_eq!(parse_index("7"), Some(7));
    assert_eq!(parse_index("007"), Some(7));
    assert_eq!(parse_index("+12"), Some(12));
    assert_eq!(parse_index("1234567890"), Some(1_234_567_890));
    assert_eq!(parse_index(&usize::MAX.to_string()), Some(usize::MAX));
}

#[test]
fn parse_index_refuses_everything_else() {
    assert_eq!(parse_index(""), None);
    assert_eq!(parse_index("+"), None);
    assert_eq!(parse_index("-1"), None);
    assert_eq!(parse_index("++1"), None);
    assert_eq!(parse_index(" 1"), None);
    assert_eq!(parse_index("1 "), None);
    assert_eq!(parse_index("1a"), None);
    assert_eq!(parse_index("a"), None);
    assert_eq!(parse_index("1.5"), None);
    assert_eq!(parse_index("\u{663}"), None);
    assert_eq!(parse_index("18446744073709551616"), None);
    assert_eq!(parse_index("99999999999999999999999"), None);
}

#[test]
fn parse_index_agrees_with_the_standard_parser() {
    for s in ["0", "5", "+5", "-5", "", "+", "05", "5x", "x", "18446744073709551615",
        "18446744073709551616", "٣", " 5"]
    {
        assert_eq!(parse_index(s), s.parse::<usize>().ok(), "for {:?}", s);
    }
}
