//! Field-normalization and primitive-parsing behavior.
use bai2::util::{
    parse_currency, parse_date, parse_int, parse_int_u16, parse_int_u32, parse_int_u64,
    parse_int_u8, parse_string, parse_time, split_exec, split_lines, Date,
};

#[test]
fn normalize_trims_and_strips_separators() {
    assert_eq!(parse_string("  ab/c "), "abc");
    assert_eq!(parse_string("abc"), "abc");
    assert_eq!(parse_string("//"), "");
    assert_eq!(parse_string("\t x / y \n"), "x  y");
    assert_eq!(parse_string(""), "");
}

#[test]
fn currency_falls_back_to_default_when_empty() {
    assert_eq!(parse_currency("", "USD"), "USD");
    assert_eq!(parse_currency("  / ", "USD"), "USD");
    assert_eq!(parse_currency(" EUR/", "USD"), "EUR");
}

#[test]
fn integers_tolerate_leading_zeros() {
    assert_eq!(parse_int("0005"), Some(5));
    assert_eq!(parse_int_u64("0005"), Some(5));
    assert_eq!(parse_int("5"), Some(5));
    assert_eq!(parse_int("+5"), Some(5));
    assert_eq!(parse_int("-12"), Some(-12));
}

#[test]
fn an_all_zero_integer_field_is_absent() {
    // stripping the leading zeros of "0" leaves nothing to parse
    assert_eq!(parse_int("0"), None);
    assert_eq!(parse_int_u64("000"), None);
    assert_eq!(parse_int("+0"), Some(0));
}

#[test]
fn integers_are_normalized_before_parsing() {
    assert_eq!(parse_int(" 12/34 "), Some(1234));
    assert_eq!(parse_int("12/"), Some(12));
    assert_eq!(parse_int("007/"), Some(7));
}

#[test]
fn unparseable_integers_are_absent() {
    assert_eq!(parse_int(""), None);
    assert_eq!(parse_int("abc"), None);
    assert_eq!(parse_int("12a"), None);
    assert_eq!(parse_int("--5"), None);
    assert_eq!(parse_int_u64("-5"), None);
}

#[test]
fn integers_out_of_range_are_absent() {
    assert_eq!(parse_int_u16("70000"), None);
    assert_eq!(parse_int_u16("65535"), Some(65535));
    assert_eq!(parse_int_u8("256"), None);
    assert_eq!(parse_int_u8("255"), Some(255));
    assert_eq!(parse_int_u32("4294967296"), None);
    assert_eq!(parse_int_u64("18446744073709551615"), Some(u64::MAX));
    assert_eq!(parse_int_u64("18446744073709551616"), None);
    assert_eq!(parse_int("9223372036854775807"), Some(i64::MAX));
    assert_eq!(parse_int("-9223372036854775808"), Some(i64::MIN));
    assert_eq!(parse_int("9223372036854775808"), None);
}

#[test]
fn dates_read_as_two_digit_year_month_day() {
    assert_eq!(parse_date("250101"), Some(Date { year: 2025, month: 1, day: 1 }));
    assert_eq!(parse_date(" 991231/"), Some(Date { year: 1999, month: 12, day: 31 }));
    assert_eq!(parse_date("991332"), None);
    assert_eq!(parse_date(""), None);
    assert_eq!(parse_date("banana"), None);
}

#[test]
fn times_read_as_hours_and_minutes() {
    assert_eq!(parse_time("0800"), Some("08:00:00".to_string()));
    assert_eq!(parse_time("2359"), Some("23:59:00".to_string()));
    assert_eq!(parse_time(""), None);
    assert_eq!(parse_time("9abc"), None);
}

#[test]
fn sentinel_times_map_to_end_of_day() {
    assert_eq!(parse_time("2400"), Some("end of day".to_string()));
    assert_eq!(parse_time("9999"), Some("end of day".to_string()));
    assert_eq!(parse_time(" 2400/"), Some("end of day".to_string()));
}

#[test]
fn splitting_on_commas_keeps_empty_pieces() {
    assert_eq!(split_exec("a,b,c", ','), vec!["a", "b", "c"]);
    assert_eq!(split_exec("a,,c", ','), vec!["a", "", "c"]);
    assert_eq!(split_exec("", ','), vec![""]);
    assert_eq!(split_exec("a,", ','), vec!["a", ""]);
}

#[test]
fn lines_split_like_str_lines() {
    assert_eq!(split_lines("a\nb"), vec!["a", "b"]);
    assert_eq!(split_lines("a\r\nb\r\n"), vec!["a", "b"]);
    assert_eq!(split_lines("a\n"), vec!["a"]);
    assert_eq!(split_lines(""), Vec::<String>::new());
    assert_eq!(split_lines("\n"), vec![""]);
    assert_eq!(split_lines("a\r"), vec!["a\r"]);
}
