use camtrap_dp::count::{format_count, parse_count};
use camtrap_dp::decimal::is_decimal_text;

#[test]
fn count_reads_decimal_digits() {
    assert_eq!(parse_count("0"), Some(0));
    assert_eq!(parse_count("007"), Some(7));
    assert_eq!(parse_count("+12"), Some(12));
    assert_eq!(parse_count("4294967295"), Some(4294967295));
}

#[test]
fn count_refuses_other_text() {
    assert_eq!(parse_count(""), None);
    assert_eq!(parse_count("+"), None);
    assert_eq!(parse_count("-1"), None);
    assert_eq!(parse_count("1.0"), None);
    assert_eq!(parse_count("0x10"), None);
    assert_eq!(parse_count(" 1"), None);
    assert_eq!(parse_count("4294967296"), None);
    assert_eq!(parse_count("99999999999999999999999"), None);
    assert_eq!(parse_count("١٢"), None);
}

#[test]
fn count_writes_shortest_text() {
    assert_eq!(format_count(0), "0");
    assert_eq!(format_count(9), "9");
    assert_eq!(format_count(10), "10");
    assert_eq!(format_count(549), "549");
    assert_eq!(format_count(u32::MAX), "4294967295");
}

#[test]
fn decimal_grammar_accepts() {
    for text in [
        "0", "5", "-5", "+5", "1.5", "1.", ".5", "-.5", "1e5", "1E5", "1e+5", "1.5e-10", "1.e3",
        "inf", "-inf", "+Infinity", "NaN", "nan", "51.496", "-0.0", "0001",
    ] {
        assert!(is_decimal_text(text), "{}", text);
        assert!(text.parse::<f64>().is_ok(), "{}", text);
    }
}

#[test]
fn decimal_grammar_refuses() {
    for text in [
        "", ".", "+", "-", "e5", "1e", "1e+", "1.5.2", "1,5", " 1", "1 ", "abc", "infinit", "nane",
        "--1", "1e5.0", "0x10", "1_000", "½", "1é",
    ] {
        assert!(!is_decimal_text(text), "{}", text);
        assert!(text.parse::<f64>().is_err(), "{}", text);
    }
}
