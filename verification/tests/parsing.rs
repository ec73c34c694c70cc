use ebird_loader::date::{date_le_x, parse_date, ObsDate};
use ebird_loader::text::{
    is_decimal_positive, is_decimal_text, parse_i64, parse_usize, split_tsv, str_eq,
};

#[test]
fn date_parses_plain() {
    let d = parse_date("2020-01-15").unwrap();
    assert_eq!(d, ObsDate { year: 2020, month: 1, day: 15 });
}

#[test]
fn date_leap_year_accepted() {
    let d = parse_date("2020-02-29").unwrap();
    assert_eq!(d, ObsDate { year: 2020, month: 2, day: 29 });
}

#[test]
fn date_non_leap_year_rejected() {
    assert!(parse_date("2019-02-29").is_none());
}

#[test]
fn date_century_rule() {
    assert!(parse_date("1900-02-29").is_none());
    assert!(parse_date("2000-02-29").is_some());
}

#[test]
fn date_bad_shapes_rejected() {
    assert!(parse_date("2020-1-15").is_none());
    assert!(parse_date("2020/01/15").is_none());
    assert!(parse_date("2020-13-01").is_none());
    assert!(parse_date("2020-00-10").is_none());
    assert!(parse_date("2020-04-31").is_none());
    assert!(parse_date("").is_none());
    assert!(parse_date("20-01-15").is_none());
}

#[test]
fn date_ordering() {
    let a = parse_date("2019-12-31").unwrap();
    let b = parse_date("2020-01-01").unwrap();
    assert!(date_le_x(&a, &b));
    assert!(!date_le_x(&b, &a));
    assert!(date_le_x(&a, &a));
}

#[test]
fn decimal_texts() {
    assert!(is_decimal_text("37.8"));
    assert!(is_decimal_text("-122.4"));
    assert!(is_decimal_text("+5"));
    assert!(is_decimal_text("1000"));
    assert!(!is_decimal_text(""));
    assert!(!is_decimal_text("1."));
    assert!(!is_decimal_text(".5"));
    assert!(!is_decimal_text("1.2.3"));
    assert!(!is_decimal_text("abc"));
    assert!(!is_decimal_text("-"));
}

#[test]
fn decimal_positivity() {
    assert!(is_decimal_positive("1000"));
    assert!(is_decimal_positive("0.5"));
    assert!(!is_decimal_positive("0"));
    assert!(!is_decimal_positive("0.0"));
    assert!(!is_decimal_positive("-3"));
    assert!(!is_decimal_positive("x"));
}

#[test]
fn integer_parsing() {
    assert_eq!(parse_usize("0"), Some(0));
    assert_eq!(parse_usize("5"), Some(5));
    assert_eq!(parse_usize("007"), Some(7));
    assert_eq!(parse_usize(""), None);
    assert_eq!(parse_usize("-1"), None);
    assert_eq!(parse_usize("18446744073709551615"), Some(18446744073709551615));
    assert_eq!(parse_usize("18446744073709551616"), None);
    assert_eq!(parse_i64("60"), Some(60));
    assert_eq!(parse_i64("-60"), Some(-60));
    assert_eq!(parse_i64("+2"), Some(2));
    assert_eq!(parse_i64("9223372036854775807"), Some(i64::MAX));
    assert_eq!(parse_i64("-9223372036854775808"), Some(i64::MIN));
    assert_eq!(parse_i64("9223372036854775808"), None);
    assert_eq!(parse_i64(""), None);
    assert_eq!(parse_i64("1.5"), None);
}

#[test]
fn tsv_splitting() {
    assert_eq!(split_tsv("a\tb\tc"), vec!["a", "b", "c"]);
    assert_eq!(split_tsv(""), vec![""]);
    assert_eq!(split_tsv("\t"), vec!["", ""]);
    assert_eq!(split_tsv("one"), vec!["one"]);
    assert_eq!(split_tsv("a\t\tb"), vec!["a", "", "b"]);
}

#[test]
fn string_equality() {
    assert!(str_eq("LATITUDE", "LATITUDE"));
    assert!(!str_eq("LATITUDE", "LONGITUDE"));
    assert!(!str_eq("abc", "ab"));
}
