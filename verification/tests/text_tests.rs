use ppl::dates::Date;
use ppl::text::{decimal_string, format_iso_date, parse_iso_date, split_commas, trim};

#[test]
fn split_plain_tokens() {
    let r = split_commas("Ana,Annie,An");
    assert_eq!(r, vec!["Ana".to_string(), "Annie".to_string(), "An".to_string()]);
}

#[test]
fn split_without_comma_is_one_token() {
    let r = split_commas("Ana");
    assert_eq!(r, vec!["Ana".to_string()]);
}

#[test]
fn split_keeps_empty_tokens() {
    let r = split_commas(",a,");
    assert_eq!(r, vec!["".to_string(), "a".to_string(), "".to_string()]);
    assert_eq!(split_commas(""), vec!["".to_string()]);
}

#[test]
fn trim_strips_both_ends() {
    assert_eq!(trim("  Annie \t"), "Annie".to_string());
    assert_eq!(trim("Annie"), "Annie".to_string());
    assert_eq!(trim("   "), "".to_string());
    assert_eq!(trim(" a b "), "a b".to_string());
}

#[test]
fn decimal_writes_numbers() {
    assert_eq!(decimal_string(0), "0".to_string());
    assert_eq!(decimal_string(7), "7".to_string());
    assert_eq!(decimal_string(42), "42".to_string());
    assert_eq!(decimal_string(1005), "1005".to_string());
}

#[test]
fn iso_format_and_parse_round_trip() {
    let d = Date { year: 1990, month: 5, day: 12 };
    let s = format_iso_date(d);
    assert_eq!(s, "1990-05-12".to_string());
    assert_eq!(parse_iso_date(&s), Some(d));
}

#[test]
fn iso_parse_rejects_bad_text() {
    assert_eq!(parse_iso_date("not a date"), None);
    assert_eq!(parse_iso_date("1990-13-01"), None);
    assert_eq!(parse_iso_date("1990-02-30"), None);
    assert_eq!(parse_iso_date("1990-5-12"), None);
    assert_eq!(parse_iso_date("0000-01-01"), None);
    assert_eq!(parse_iso_date("2024-02-29"), Some(Date { year: 2024, month: 2, day: 29 }));
    assert_eq!(parse_iso_date("2023-02-29"), None);
}
