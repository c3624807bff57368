//! Battery charge thresholds: the two sysfs values that start and stop
//! charging, read as decimal text and written back as decimal text.

use vstd::prelude::*;
use vstd::string::StringSliceAdditionalSpecFns;
use vstd::string::StringExecFns;
use crate::decimal::{IntParseError, parse_i32, parse_i32_spec, format_i32, decimal_i32};

verus! {

/// The text of a failed parse, as the `Display` of `std::num::ParseIntError` writes it.
pub open spec fn error_message(e: IntParseError) -> Seq<char> {
    match e {
        IntParseError::Empty => "cannot parse integer from empty string"@,
        IntParseError::InvalidDigit => "invalid digit found in string"@,
        IntParseError::PosOverflow => "number too large to fit in target type"@,
        IntParseError::NegOverflow => "number too small to fit in target type"@,
    }
}

/// The text of an error, for the error type of this library's decimal reader.
pub fn err_str(err: IntParseError) -> (s: String)
    ensures
        s@ == error_message(err),
{
    match err {
        IntParseError::Empty => String::from_str("cannot parse integer from empty string"),
        IntParseError::InvalidDigit => String::from_str("invalid digit found in string"),
        IntParseError::PosOverflow => String::from_str("number too large to fit in target type"),
        IntParseError::NegOverflow => String::from_str("number too small to fit in target type"),
    }
}

/// The thresholds given the bytes read from the start and the end file
/// (`None` where the read failed): both reads are needed, else the error is the
/// empty text; then the start value is read, then the end value, and the first
/// that is not a decimal `i32` gives its error text.
pub open spec fn thresholds_spec(start: Option<Seq<u8>>, end: Option<Seq<u8>>) -> Result<(i32, i32), Seq<char>> {
    match (start, end) {
        (Some(s), Some(e)) => match parse_i32_spec(s) {
            Err(x) => Err(error_message(x)),
            Ok(a) => match parse_i32_spec(e) {
                Err(y) => Err(error_message(y)),
                Ok(b) => Ok((a, b)),
            },
        },
        _ => Err(Seq::<char>::empty()),
    }
}

/// The bytes of a text that was read, if it was.
pub open spec fn bytes_of(text: Option<&str>) -> Option<Seq<u8>> {
    match text {
        Some(t) => Some(t.spec_bytes()),
        None => None,
    }
}

/// A result with its error text taken by its characters.
pub open spec fn result_view<T>(r: Result<T, String>) -> Result<T, Seq<char>> {
    match r {
        Ok(v) => Ok(v),
        Err(e) => Err(e@),
    }
}

/// The charge thresholds from what was read from the start and the end
/// threshold files; `None` stands for a read that failed.
pub fn parse_charge_thresholds(start: Option<&str>, end: Option<&str>) -> (res: Result<(i32, i32), String>)
    ensures
        result_view(res) == thresholds_spec(bytes_of(start), bytes_of(end)),
{
    match (start, end) {
        (Some(s), Some(e)) => {
            let a = match parse_i32(s) {
                Ok(a) => a,
                Err(x) => return Err(err_str(x)),
            };
            let b = match parse_i32(e) {
                Ok(b) => b,
                Err(y) => return Err(err_str(y)),
            };
            Ok((a, b))
        },
        _ => Err(String::new()),
    }
}

/// The texts to write to the start and the end threshold files.
pub fn format_charge_thresholds(thresholds: (i32, i32)) -> (res: (String, String))
    ensures
        res.0@ == decimal_i32(thresholds.0),
        res.1@ == decimal_i32(thresholds.1),
{
    (format_i32(thresholds.0), format_i32(thresholds.1))
}

/// Reading the thresholds back from what `format_charge_thresholds` writes
/// gives the thresholds that were written.
pub proof fn lemma_thresholds_read_back(start: i32, end: i32)
    ensures
        thresholds_spec(
            Some(vstd::utf8::encode_utf8(decimal_i32(start))),
            Some(vstd::utf8::encode_utf8(decimal_i32(end))),
        ) == Ok::<(i32, i32), Seq<char>>((start, end)),
{
    crate::decimal::lemma_parse_format_i32(start);
    crate::decimal::lemma_parse_format_i32(end);
}

/// Two texts of decimal digits whose values fit in an `i32` read as the pair
/// of their positional values, the start threshold from the first text and
/// the end threshold from the second.
pub proof fn lemma_thresholds_from_decimal_texts(start: Seq<u8>, end: Seq<u8>)
    requires
        start.len() >= 1,
        end.len() >= 1,
        crate::decimal::all_digits(start),
        crate::decimal::all_digits(end),
        crate::decimal::positional_value(start) <= i32::MAX,
        crate::decimal::positional_value(end) <= i32::MAX,
    ensures
        thresholds_spec(Some(start), Some(end)) == Ok::<(i32, i32), Seq<char>>(
            (crate::decimal::positional_value(start) as i32, crate::decimal::positional_value(end) as i32),
        ),
{
    crate::decimal::lemma_parse_decimal_text(start);
    crate::decimal::lemma_parse_decimal_text(end);
}

/// Calls `std::path::Path::is_dir` on `path`. Its answer depends on the file
/// system at the moment of the call, so the contract states nothing of it.
#[verifier::external_body]
fn path_is_dir(path: &str) -> bool {
    std::path::Path::new(path).is_dir()
}

/// Whether the embedded controller of a System76 laptop is present, that is,
/// whether its ACPI device directory exists.
pub fn is_s76_ec() -> bool {
    path_is_dir("/sys/bus/acpi/devices/17761776:00")
}

} // verus!
