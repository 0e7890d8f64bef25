use space_cli::text::{decimal_text, parse_decimal, push_decimal};

#[test]
fn decimal_of_small_numbers() {
    assert_eq!(decimal_text(0), "0");
    assert_eq!(decimal_text(7), "7");
    assert_eq!(decimal_text(10), "10");
    assert_eq!(decimal_text(7225), "7225");
    assert_eq!(decimal_text(1_000_000), "1000000");
}

#[test]
fn decimal_of_the_largest_number() {
    assert_eq!(decimal_text(u64::MAX), "18446744073709551615");
}

#[test]
fn decimal_is_appended() {
    let mut text = String::from("port ");
    push_decimal(&mut text, 8080);
    assert_eq!(text, "port 8080");
    push_decimal(&mut text, 0);
    assert_eq!(text, "port 80800");
}

#[test]
fn digits_are_read() {
    assert_eq!(parse_decimal("0"), Some(0));
    assert_eq!(parse_decimal("5"), Some(5));
    assert_eq!(parse_decimal("1000"), Some(1000));
    assert_eq!(parse_decimal("00012"), Some(12));
}

#[test]
fn a_leading_plus_is_accepted() {
    assert_eq!(parse_decimal("+5"), Some(5));
    assert_eq!(parse_decimal("+0"), Some(0));
}

#[test]
fn a_sign_alone_is_no_number() {
    assert_eq!(parse_decimal(""), None);
    assert_eq!(parse_decimal("+"), None);
    assert_eq!(parse_decimal("++5"), None);
    assert_eq!(parse_decimal("5+"), None);
    assert_eq!(parse_decimal("-5"), None);
}

#[test]
fn anything_but_digits_is_refused() {
    assert_eq!(parse_decimal("abc"), None);
    assert_eq!(parse_decimal("5a"), None);
    assert_eq!(parse_decimal(" 5"), None);
    assert_eq!(parse_decimal("5 "), None);
    assert_eq!(parse_decimal("1_000"), None);
    assert_eq!(parse_decimal("1.5"), None);
    assert_eq!(parse_decimal("0x10"), None);
    assert_eq!(parse_decimal("１２"), None);
}

#[test]
fn the_largest_number_is_read_and_the_next_is_not() {
    assert_eq!(parse_decimal("18446744073709551615"), Some(u64::MAX));
    assert_eq!(parse_decimal("18446744073709551616"), None);
    assert_eq!(parse_decimal("18446744073709551620"), None);
    assert_eq!(parse_decimal("99999999999999999999"), None);
    assert_eq!(parse_decimal("184467440737095516150"), None);
    assert_eq!(parse_decimal("000018446744073709551615"), Some(u64::MAX));
}

#[test]
fn overflow_followed_by_a_letter_is_refused_too() {
    assert_eq!(parse_decimal("99999999999999999999999x"), None);
}

#[test]
fn reading_agrees_with_the_standard_library() {
    for text in ["0", "+7", "42", "", "+", "-1", "4 2", "18446744073709551615", "18446744073709551616", "007"] {
        assert_eq!(parse_decimal(text), text.parse::<u64>().ok());
    }
}

#[test]
fn what_is_written_is_read_back() {
    for n in [0u64, 1, 9, 10, 99, 100, 12345, u64::MAX - 1, u64::MAX] {
        assert_eq!(parse_decimal(&decimal_text(n)), Some(n));
    }
}
