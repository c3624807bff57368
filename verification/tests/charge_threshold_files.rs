use system76_power::charge_thresholds::{format_charge_thresholds, is_s76_ec, parse_charge_thresholds};

#[test]
fn thresholds_read_from_both_files() {
    assert_eq!(parse_charge_thresholds(Some("40"), Some("80")), Ok((40, 80)));
    assert_eq!(parse_charge_thresholds(Some("-3"), Some("+100")), Ok((-3, 100)));
}

#[test]
fn thresholds_need_both_reads() {
    assert_eq!(parse_charge_thresholds(None, Some("80")), Err(String::new()));
    assert_eq!(parse_charge_thresholds(Some("40"), None), Err(String::new()));
    assert_eq!(parse_charge_thresholds(None, None), Err(String::new()));
}

#[test]
fn thresholds_report_the_first_bad_value() {
    assert_eq!(
        parse_charge_thresholds(Some("40\n"), Some("")),
        Err("invalid digit found in string".to_string())
    );
    assert_eq!(
        parse_charge_thresholds(Some("40"), Some("")),
        Err("cannot parse integer from empty string".to_string())
    );
    assert_eq!(
        parse_charge_thresholds(Some("40"), Some("3000000000")),
        Err("number too large to fit in target type".to_string())
    );
}

#[test]
fn thresholds_written_as_decimal_text() {
    assert_eq!(format_charge_thresholds((40, 80)), ("40".to_string(), "80".to_string()));
    assert_eq!(format_charge_thresholds((-7, 0)), ("-7".to_string(), "0".to_string()));
}

#[test]
fn thresholds_read_back_what_was_written() {
    for pair in [(0, 100), (40, 80), (i32::MIN, i32::MAX), (-1, 1)].iter() {
        let (s, e) = format_charge_thresholds(*pair);
        assert_eq!(parse_charge_thresholds(Some(&s), Some(&e)), Ok(*pair));
    }
}

#[test]
fn embedded_controller_probe_looks_at_its_acpi_directory() {
    assert_eq!(is_s76_ec(), std::path::Path::new("/sys/bus/acpi/devices/17761776:00").is_dir());
}
