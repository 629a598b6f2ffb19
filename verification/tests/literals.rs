use template_handle::literal::{parse_boolean, parse_integer};

#[test]
fn parse_integer_reads_decimal_digits() {
    assert_eq!(parse_integer("0"), Some(0));
    assert_eq!(parse_integer("42"), Some(42));
    assert_eq!(parse_integer("007"), Some(7));
    assert_eq!(parse_integer("1234567890"), Some(1234567890));
}

#[test]
fn parse_integer_takes_one_sign() {
    assert_eq!(parse_integer("+7"), Some(7));
    assert_eq!(parse_integer("-7"), Some(-7));
    assert_eq!(parse_integer("-0"), Some(0));
    assert_eq!(parse_integer("+"), None);
    assert_eq!(parse_integer("-"), None);
    assert_eq!(parse_integer("--7"), None);
    assert_eq!(parse_integer("+-7"), None);
    assert_eq!(parse_integer("7-"), None);
}

#[test]
fn parse_integer_keeps_to_the_range() {
    assert_eq!(parse_integer("9223372036854775807"), Some(i64::MAX));
    assert_eq!(parse_integer("+9223372036854775807"), Some(i64::MAX));
    assert_eq!(parse_integer("-9223372036854775808"), Some(i64::MIN));
    assert_eq!(parse_integer("9223372036854775808"), None);
    assert_eq!(parse_integer("-9223372036854775809"), None);
    assert_eq!(parse_integer("99999999999999999999999999999999"), None);
    assert_eq!(parse_integer("000000000000000000000000000000000001"), Some(1));
    assert_eq!(parse_integer("-000000000000000000009223372036854775808"), Some(i64::MIN));
}

#[test]
fn parse_integer_refuses_other_text() {
    let refused = [
        "", " ", " 5", "5 ", "4 2", "abc", "1.5", "1e3", "0x10", "1_000", "٣", "５", "12a",
    ];
    for text in refused {
        assert_eq!(parse_integer(text), None, "{:?}", text);
    }
}

#[test]
fn parse_integer_agrees_with_the_standard_library() {
    let samples = [
        "", "+", "-", "0", "-0", "+0", "17", "-17", "+17", " 17", "17 ", "1 7", "９", "0009",
        "9223372036854775807", "9223372036854775808", "-9223372036854775808",
        "-9223372036854775809", "18446744073709551616", "1-", "--1", "+-1", "a", "1a", "\u{663}",
    ];
    for text in samples {
        assert_eq!(parse_integer(text), text.parse::<i64>().ok(), "{:?}", text);
    }
}

#[test]
fn parse_boolean_reads_two_spellings() {
    assert_eq!(parse_boolean("true"), Some(true));
    assert_eq!(parse_boolean("false"), Some(false));
}

#[test]
fn parse_boolean_refuses_other_text() {
    let refused = [
        "", "1", "0", "yes", "no", "on", "off", "True", "False", "TRUE", " true", "true ", "t", "f",
    ];
    for text in refused {
        assert_eq!(parse_boolean(text), None, "{:?}", text);
        assert_eq!(parse_boolean(text), text.parse::<bool>().ok(), "{:?}", text);
    }
}
