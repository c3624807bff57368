use system76_power::charge_thresholds::err_str;
use system76_power::decimal::{format_i32, format_u64, parse_i32, IntParseError};

fn std_parse(s: &str) -> Result<i32, String> {
    i32::from_str_radix(s, 10).map_err(|e| e.to_string())
}

fn lib_parse(s: &str) -> Result<i32, String> {
    parse_i32(s).map_err(err_str)
}

#[test]
fn parse_plain_values() {
    assert_eq!(parse_i32("80"), Ok(80));
    assert_eq!(parse_i32("0"), Ok(0));
    assert_eq!(parse_i32("-5"), Ok(-5));
    assert_eq!(parse_i32("+7"), Ok(7));
    assert_eq!(parse_i32("-0"), Ok(0));
    assert_eq!(parse_i32("007"), Ok(7));
}

#[test]
fn parse_limits() {
    assert_eq!(parse_i32("2147483647"), Ok(i32::MAX));
    assert_eq!(parse_i32("-2147483648"), Ok(i32::MIN));
    assert_eq!(parse_i32("2147483648"), Err(IntParseError::PosOverflow));
    assert_eq!(parse_i32("-2147483649"), Err(IntParseError::NegOverflow));
}

#[test]
fn parse_errors() {
    assert_eq!(parse_i32(""), Err(IntParseError::Empty));
    assert_eq!(parse_i32("+"), Err(IntParseError::InvalidDigit));
    assert_eq!(parse_i32("-"), Err(IntParseError::InvalidDigit));
    assert_eq!(parse_i32("80\n"), Err(IntParseError::InvalidDigit));
    assert_eq!(parse_i32(" 80"), Err(IntParseError::InvalidDigit));
    assert_eq!(parse_i32("+-1"), Err(IntParseError::InvalidDigit));
    assert_eq!(parse_i32("9\u{e9}"), Err(IntParseError::InvalidDigit));
    assert_eq!(parse_i32("99999999999x"), Err(IntParseError::PosOverflow));
    assert_eq!(parse_i32("1x99999999999"), Err(IntParseError::InvalidDigit));
}

#[test]
fn parse_agrees_with_std() {
    let inputs = [
        "", "+", "-", "0", "42", "-42", "+42", "007", "80\n", "1 2", "abc", "2147483647", "2147483648",
        "-2147483648", "-2147483649", "99999999999x", "-99999999999x", "1x99999999999", "12345678", "-1234567",
        "++1", "--1", "\u{663}", "4294967296", "-0",
    ];
    for s in inputs.iter() {
        assert_eq!(lib_parse(s), std_parse(s), "input {:?}", s);
    }
}

#[test]
fn error_texts_match_std() {
    assert_eq!(err_str(IntParseError::Empty), std_parse("").unwrap_err());
    assert_eq!(err_str(IntParseError::InvalidDigit), std_parse("x").unwrap_err());
    assert_eq!(err_str(IntParseError::PosOverflow), std_parse("9999999999").unwrap_err());
    assert_eq!(err_str(IntParseError::NegOverflow), std_parse("-9999999999").unwrap_err());
}

#[test]
fn format_values() {
    assert_eq!(format_i32(0), "0");
    assert_eq!(format_i32(80), "80");
    assert_eq!(format_i32(-1), "-1");
    assert_eq!(format_i32(i32::MAX), "2147483647");
    assert_eq!(format_i32(i32::MIN), "-2147483648");
    assert_eq!(format_u64(0), "0");
    assert_eq!(format_u64(1000), "1000");
    assert_eq!(format_u64(u64::MAX), u64::MAX.to_string());
}

#[test]
fn format_then_parse_gives_the_value_back() {
    for v in [i32::MIN, -1000000, -10, -9, -1, 0, 1, 9, 10, 99, 100, 2147483, i32::MAX].iter() {
        assert_eq!(format_i32(*v), v.to_string());
        assert_eq!(parse_i32(&format_i32(*v)), Ok(*v));
    }
}
