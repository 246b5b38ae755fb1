use serene::text::{decimal_text, parse_decimal};

#[test]
fn numbers_are_written_in_decimal() {
    assert_eq!(decimal_text(0), "0");
    assert_eq!(decimal_text(7), "7");
    assert_eq!(decimal_text(10), "10");
    assert_eq!(decimal_text(22), "22");
    assert_eq!(decimal_text(31337), "31337");
    assert_eq!(decimal_text(65535), "65535");
    assert_eq!(decimal_text(1234567890), "1234567890");
    assert_eq!(decimal_text(u64::MAX), "18446744073709551615");
}

#[test]
fn numerals_are_read() {
    assert_eq!(parse_decimal("0"), Some(0));
    assert_eq!(parse_decimal("42"), Some(42));
    assert_eq!(parse_decimal("+42"), Some(42));
    assert_eq!(parse_decimal("007"), Some(7));
    assert_eq!(parse_decimal("18446744073709551615"), Some(u64::MAX));
    assert_eq!(parse_decimal("00018446744073709551615"), Some(u64::MAX));
}

#[test]
fn what_is_no_numeral_is_not_read() {
    assert_eq!(parse_decimal(""), None);
    assert_eq!(parse_decimal("+"), None);
    assert_eq!(parse_decimal("-"), None);
    assert_eq!(parse_decimal("-5"), None);
    assert_eq!(parse_decimal("++5"), None);
    assert_eq!(parse_decimal("5+"), None);
    assert_eq!(parse_decimal("12a"), None);
    assert_eq!(parse_decimal(" 12"), None);
    assert_eq!(parse_decimal("12 "), None);
    assert_eq!(parse_decimal("1_000"), None);
    assert_eq!(parse_decimal("all"), None);
    assert_eq!(parse_decimal("\u{ff11}\u{ff12}"), None);
    assert_eq!(parse_decimal("1\u{e9}"), None);
    assert_eq!(parse_decimal("18446744073709551616"), None);
    assert_eq!(parse_decimal("99999999999999999999999"), None);
}

#[test]
fn reading_agrees_with_the_standard_library() {
    let samples = [
        "",
        "0",
        "1",
        "9",
        "10",
        "+0",
        "+",
        "-0",
        "-1",
        "0x10",
        "1e3",
        "\u{663}",
        "18446744073709551615",
        "18446744073709551616",
        "18446744073709551620",
        "28446744073709551615",
        "+18446744073709551615",
        "000000000000000000000000000001",
        "12345678901234567890",
        "1 2",
        "\t7",
        "7\n",
        "+-7",
    ];
    for text in samples {
        assert_eq!(parse_decimal(text), text.parse::<u64>().ok(), "reading {:?}", text);
    }
}

#[test]
fn what_is_written_is_read_back() {
    for n in [0u64, 1, 9, 10, 99, 100, 65535, 65536, u64::MAX - 1, u64::MAX] {
        assert_eq!(parse_decimal(&decimal_text(n)), Some(n));
        assert_eq!(decimal_text(n), n.to_string());
    }
}
