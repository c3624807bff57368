//! Signed decimal integers as `i32::from_str_radix(_, 10)` reads them, and the
//! decimal text that `{}` formatting writes for them.

use vstd::prelude::*;
use vstd::string::StringSliceAdditionalSpecFns;
use vstd::string::StringExecFns;
use vstd::arithmetic::power::pow;

verus! {

/// Why a decimal text is not an `i32`.
#[derive(Clone, Copy, Debug, PartialEq, Eq, Structural)]
pub enum IntParseError {
    /// The text is empty.
    Empty,
    /// A byte that is not an ASCII digit, or a lone sign.
    InvalidDigit,
    /// The value is above `i32::MAX`.
    PosOverflow,
    /// The value is below `i32::MIN`.
    NegOverflow,
}

pub open spec fn is_digit_byte(b: u8) -> bool {
    48 <= b <= 57
}

pub open spec fn in_i32_range(v: int) -> bool {
    i32::MIN <= v <= i32::MAX
}

/// Reading the digits `d` from left to right, starting from 0: the value so far
/// is multiplied by ten and the next digit is added (or, for a negative
/// number, subtracted). The first byte that is not a digit stops the reading
/// with `InvalidDigit`; the first value outside the `i32` range stops it with an
/// overflow.
pub open spec fn scan_digits(d: Seq<u8>, negative: bool) -> Result<int, IntParseError>
    decreases d.len(),
{
    if d.len() == 0 {
        Ok(0)
    } else {
        match scan_digits(d.drop_last(), negative) {
            Err(e) => Err(e),
            Ok(acc) => {
                let b = d.last();
                if !is_digit_byte(b) {
                    Err(IntParseError::InvalidDigit)
                } else {
                    let v = if negative { acc * 10 - (b - 48) } else { acc * 10 + (b - 48) };
                    if in_i32_range(v) {
                        Ok(v)
                    } else if negative {
                        Err(IntParseError::NegOverflow)
                    } else {
                        Err(IntParseError::PosOverflow)
                    }
                }
            },
        }
    }
}

/// The `i32` that a text of bytes stands for: an optional `+` or `-` and then
/// decimal digits, nothing else.
pub open spec fn parse_i32_spec(s: Seq<u8>) -> Result<i32, IntParseError> {
    if s.len() == 0 {
        Err(IntParseError::Empty)
    } else if (s[0] == 43u8 || s[0] == 45u8) && s.len() == 1 {
        Err(IntParseError::InvalidDigit)
    } else {
        let negative = s[0] == 45u8;
        let digits = if s[0] == 43u8 || s[0] == 45u8 { s.drop_first() } else { s };
        match scan_digits(digits, negative) {
            Ok(v) => Ok(v as i32),
            Err(e) => Err(e),
        }
    }
}

proof fn lemma_scan_error_extends(d: Seq<u8>, k: int, negative: bool)
    requires
        0 <= k <= d.len(),
        scan_digits(d.take(k), negative) is Err,
    ensures
        scan_digits(d, negative) == scan_digits(d.take(k), negative),
    decreases d.len() - k,
{
    if k < d.len() {
        assert(d.take(k + 1).drop_last() =~= d.take(k));
        lemma_scan_error_extends(d, k + 1, negative);
    } else {
        assert(d.take(k) =~= d);
    }
}

/// Reads a decimal `i32` from the bytes of `s`, as `i32::from_str_radix(s, 10)` does.
pub fn parse_i32(s: &str) -> (res: Result<i32, IntParseError>)
    ensures
        res == parse_i32_spec(s.spec_bytes()),
{
    let bytes = s.as_bytes();
    let n: usize = bytes.len();
    if n == 0 {
        return Err(IntParseError::Empty);
    }
    let first: u8 = bytes[0];
    if (first == 43u8 || first == 45u8) && n == 1 {
        return Err(IntParseError::InvalidDigit);
    }
    let negative = first == 45u8;
    let start: usize = if first == 43u8 || first == 45u8 { 1 } else { 0 };
    let ghost digits = if first == 43u8 || first == 45u8 { bytes@.drop_first() } else { bytes@ };
    assert(digits =~= bytes@.subrange(start as int, n as int));
    assert(digits.take(0) =~= Seq::<u8>::empty());
    let mut acc: i32 = 0;
    let mut i: usize = start;
    while i < n
        invariant
            n == bytes@.len(),
            bytes@ == s.spec_bytes(),
            n > 0,
            first == bytes@[0],
            !((first == 43u8 || first == 45u8) && n == 1),
            negative == (first == 45u8),
            start == (if first == 43u8 || first == 45u8 { 1usize } else { 0usize }),
            start <= i <= n,
            start == 0 || start == 1,
            digits == bytes@.subrange(start as int, n as int),
            digits == (if first == 43u8 || first == 45u8 { bytes@.drop_first() } else { bytes@ }),
            scan_digits(digits.take(i - start), negative) == Ok::<int, IntParseError>(acc as int),
        decreases n - i,
    {
        let b: u8 = bytes[i];
        assert(digits.take(i - start + 1).drop_last() =~= digits.take(i - start));
        assert(digits.take(i - start + 1).last() == b);
        if b < 48u8 || b > 57u8 {
            assert(scan_digits(digits.take(i - start + 1), negative)
                == Err::<int, IntParseError>(IntParseError::InvalidDigit));
            proof {
                lemma_scan_error_extends(digits, i - start + 1, negative);
            }
            return Err(IntParseError::InvalidDigit);
        }
        let d: i64 = (b - 48u8) as i64;
        let v: i64 = if negative { acc as i64 * 10 - d } else { acc as i64 * 10 + d };
        if v < i32::MIN as i64 || v > i32::MAX as i64 {
            assert(scan_digits(digits.take(i - start + 1), negative) == (if negative {
                Err::<int, IntParseError>(IntParseError::NegOverflow)
            } else {
                Err::<int, IntParseError>(IntParseError::PosOverflow)
            }));
            proof {
                lemma_scan_error_extends(digits, i - start + 1, negative);
            }
            if negative {
                return Err(IntParseError::NegOverflow);
            } else {
                return Err(IntParseError::PosOverflow);
            }
        }
        acc = v as i32;
        i = i + 1;
    }
    assert(digits.take(n - start) =~= digits);
    Ok(acc)
}

/// The character of the decimal digit `d`.
pub open spec fn digit_char(d: int) -> char {
    (48 + d) as char
}

/// The decimal digits of `n`, most significant first, without leading zeros
/// (`0` is written as one digit).
pub open spec fn decimal_digits(n: nat) -> Seq<char>
    decreases n,
{
    if n < 10 {
        seq![digit_char(n as int)]
    } else {
        decimal_digits(n / 10).push(digit_char((n % 10) as int))
    }
}

/// The text that `{}` formatting writes for an `i32`: a `-` for a negative
/// value, then the decimal digits of its magnitude.
pub open spec fn decimal_i32(v: i32) -> Seq<char> {
    if v < 0 {
        seq!['-'] + decimal_digits((-v) as nat)
    } else {
        decimal_digits(v as nat)
    }
}

fn digit_str(d: u64) -> (r: &'static str)
    requires
        d < 10,
    ensures
        r@ == seq![digit_char(d as int)],
{
    proof {
        reveal_strlit("0");
        reveal_strlit("1");
        reveal_strlit("2");
        reveal_strlit("3");
        reveal_strlit("4");
        reveal_strlit("5");
        reveal_strlit("6");
        reveal_strlit("7");
        reveal_strlit("8");
        reveal_strlit("9");
    }
    match d {
        0 => "0",
        1 => "1",
        2 => "2",
        3 => "3",
        4 => "4",
        5 => "5",
        6 => "6",
        7 => "7",
        8 => "8",
        _ => "9",
    }
}

/// Appends the decimal digits of `n` to `out`.
pub fn push_decimal(out: &mut String, n: u64)
    ensures
        final(out)@ == old(out)@ + decimal_digits(n as nat),
    decreases n,
{
    if n >= 10 {
        push_decimal(out, n / 10);
    }
    out.append(digit_str(n % 10));
}

/// The decimal text of `n`, as `format!("{}", n)` writes it.
pub fn format_u64(n: u64) -> (s: String)
    ensures
        s@ == decimal_digits(n as nat),
{
    let mut s = String::new();
    push_decimal(&mut s, n);
    s
}

/// The decimal text of `v`, as `format!("{}", v)` writes it.
pub fn format_i32(v: i32) -> (s: String)
    ensures
        s@ == decimal_i32(v),
{
    if v < 0 {
        let mut s = String::from_str("-");
        proof {
            reveal_strlit("-");
        }
        let magnitude: u64 = (0i64 - v as i64) as u64;
        push_decimal(&mut s, magnitude);
        s
    } else {
        format_u64(v as u64)
    }
}

/// The bytes of a text of ASCII characters.
pub open spec fn ascii_bytes(cs: Seq<char>) -> Seq<u8> {
    Seq::new(cs.len(), |i: int| cs[i] as u8)
}

proof fn lemma_digit_char(d: int)
    requires
        0 <= d < 10,
    ensures
        digit_char(d) as u8 == 48 + d,
        '0' <= digit_char(d) <= '9',
{
}

proof fn lemma_decimal_digits_ascii(n: nat)
    ensures
        decimal_digits(n).len() >= 1,
        forall|i: int| 0 <= i < decimal_digits(n).len() ==> '0' <= #[trigger] decimal_digits(n)[i] <= '9',
    decreases n,
{
    if n < 10 {
        lemma_digit_char(n as int);
    } else {
        lemma_decimal_digits_ascii(n / 10);
        lemma_digit_char((n % 10) as int);
    }
}

proof fn lemma_scan_decimal_digits(n: nat, negative: bool)
    requires
        if negative { n <= 2147483648 } else { n <= 2147483647 },
    ensures
        scan_digits(ascii_bytes(decimal_digits(n)), negative)
            == Ok::<int, IntParseError>(if negative { -n } else { n as int }),
    decreases n,
{
    let b = ascii_bytes(decimal_digits(n));
    if n < 10 {
        lemma_digit_char(n as int);
        assert(b.drop_last() =~= Seq::<u8>::empty());
        assert(b.last() == 48 + n);
    } else {
        lemma_scan_decimal_digits(n / 10, negative);
        lemma_digit_char((n % 10) as int);
        assert(b.drop_last() =~= ascii_bytes(decimal_digits(n / 10)));
        assert(b.last() == 48 + n % 10);
        assert(n == (n / 10) * 10 + n % 10) by {
            vstd::arithmetic::div_mod::lemma_fundamental_div_mod(n as int, 10);
        }
        assert(scan_digits(b.drop_last(), negative)
            == Ok::<int, IntParseError>(if negative { -((n / 10) as int) } else { (n / 10) as int }));
    }
}

proof fn lemma_encode_ascii(cs: Seq<char>)
    requires
        forall|i: int| 0 <= i < cs.len() ==> '\0' <= #[trigger] cs[i] <= '\u{7f}',
    ensures
        vstd::utf8::encode_utf8(cs) == ascii_bytes(cs),
{
    assert(vstd::utf8::is_ascii_chars(cs));
    vstd::utf8::is_ascii_chars_encode_utf8(cs);
    assert(vstd::utf8::encode_utf8(cs) =~= ascii_bytes(cs));
}

/// Reading back what `format_i32` writes gives the value that was written:
/// the bytes of `decimal_i32(v)` parse to `v`, for every `i32`.
pub proof fn lemma_parse_format_i32(v: i32)
    ensures
        parse_i32_spec(vstd::utf8::encode_utf8(decimal_i32(v))) == Ok::<i32, IntParseError>(v),
{
    let t = decimal_i32(v);
    if v < 0 {
        let m = (-v) as nat;
        lemma_decimal_digits_ascii(m);
        assert(forall|i: int| 0 <= i < t.len() ==> '\0' <= #[trigger] t[i] <= '\u{7f}') by {
            assert forall|i: int| 0 <= i < t.len() implies '\0' <= #[trigger] t[i] <= '\u{7f}' by {
                if i > 0 {
                    assert(t[i] == decimal_digits(m)[i - 1]);
                }
            }
        }
        lemma_encode_ascii(t);
        lemma_scan_decimal_digits(m, true);
        let b = ascii_bytes(t);
        assert(b[0] == 45u8);
        assert(b.drop_first() =~= ascii_bytes(decimal_digits(m)));
    } else {
        let m = v as nat;
        lemma_decimal_digits_ascii(m);
        lemma_encode_ascii(t);
        lemma_scan_decimal_digits(m, false);
        let b = ascii_bytes(t);
        assert('0' <= t[0] <= '9');
        assert(48 <= b[0] <= 57);
    }
}

/// Whether every byte of `d` is an ASCII decimal digit.
pub open spec fn all_digits(d: Seq<u8>) -> bool {
    forall|i: int| 0 <= i < d.len() ==> is_digit_byte(#[trigger] d[i])
}

/// The value of a text of decimal digits `d`: the sum of each digit times ten to
/// the power of the number of digits after it.
pub open spec fn positional_value(d: Seq<u8>) -> int
    decreases d.len(),
{
    if d.len() == 0 {
        0
    } else {
        (d[0] - 48) * pow(10, (d.len() - 1) as nat) + positional_value(d.drop_first())
    }
}

proof fn lemma_positional_push(d: Seq<u8>, x: u8)
    ensures
        positional_value(d.push(x)) == positional_value(d) * 10 + (x - 48),
    decreases d.len(),
{
    let e = d.push(x);
    reveal(pow);
    if d.len() == 0 {
        assert(e.drop_first() =~= Seq::<u8>::empty());
        assert(pow(10, 0) == 1);
        assert(positional_value(e) == (x - 48) * pow(10, 0) + positional_value(e.drop_first()));
    } else {
        assert(e.drop_first() =~= d.drop_first().push(x));
        lemma_positional_push(d.drop_first(), x);
        let p = pow(10, (d.len() - 1) as nat);
        assert(pow(10, d.len() as nat) == 10 * p);
        let a = d[0] - 48;
        assert(a * (10 * p) == (a * p) * 10) by (nonlinear_arith);
        assert(e[0] == d[0]);
        assert(positional_value(e) == a * pow(10, d.len() as nat) + positional_value(e.drop_first()));
        assert(positional_value(d) == a * p + positional_value(d.drop_first()));
    }
}

proof fn lemma_positional_nonneg(d: Seq<u8>)
    requires
        all_digits(d),
    ensures
        positional_value(d) >= 0,
    decreases d.len(),
{
    if d.len() > 0 {
        let dl = d.drop_last();
        assert(dl.push(d.last()) =~= d);
        assert(all_digits(dl)) by {
            assert forall|i: int| 0 <= i < dl.len() implies is_digit_byte(#[trigger] dl[i]) by {
                assert(dl[i] == d[i]);
            }
        }
        lemma_positional_nonneg(dl);
        lemma_positional_push(dl, d.last());
        assert(is_digit_byte(d[d.len() - 1]));
    }
}

proof fn lemma_scan_positional(d: Seq<u8>, negative: bool)
    requires
        all_digits(d),
    ensures
        !negative && positional_value(d) <= i32::MAX ==> scan_digits(d, negative) == Ok::<int, IntParseError>(
            positional_value(d),
        ),
        !negative && positional_value(d) > i32::MAX ==> scan_digits(d, negative) == Err::<int, IntParseError>(
            IntParseError::PosOverflow,
        ),
        negative && positional_value(d) <= 2147483648 ==> scan_digits(d, negative) == Ok::<int, IntParseError>(
            -positional_value(d),
        ),
        negative && positional_value(d) > 2147483648 ==> scan_digits(d, negative) == Err::<int, IntParseError>(
            IntParseError::NegOverflow,
        ),
    decreases d.len(),
{
    if d.len() > 0 {
        let dl = d.drop_last();
        assert(dl.push(d.last()) =~= d);
        assert(all_digits(dl)) by {
            assert forall|i: int| 0 <= i < dl.len() implies is_digit_byte(#[trigger] dl[i]) by {
                assert(dl[i] == d[i]);
            }
        }
        lemma_scan_positional(dl, negative);
        lemma_positional_push(dl, d.last());
        lemma_positional_nonneg(dl);
        assert(is_digit_byte(d[d.len() - 1]));
    }
}

/// A text of decimal digits reads as its positional value, with an optional
/// sign in front, when that value fits in an `i32`; past `i32::MAX` (or below
/// `i32::MIN` with a `-`) it is an overflow.
pub proof fn lemma_parse_decimal_text(d: Seq<u8>)
    requires
        d.len() >= 1,
        all_digits(d),
    ensures
        positional_value(d) <= i32::MAX ==> parse_i32_spec(d) == Ok::<i32, IntParseError>(positional_value(d) as i32)
            && parse_i32_spec(seq![43u8] + d) == Ok::<i32, IntParseError>(positional_value(d) as i32),
        positional_value(d) > i32::MAX ==> parse_i32_spec(d) == Err::<i32, IntParseError>(IntParseError::PosOverflow)
            && parse_i32_spec(seq![43u8] + d) == Err::<i32, IntParseError>(IntParseError::PosOverflow),
        positional_value(d) <= 2147483648 ==> parse_i32_spec(seq![45u8] + d) == Ok::<i32, IntParseError>(
            (-positional_value(d)) as i32,
        ),
        positional_value(d) > 2147483648 ==> parse_i32_spec(seq![45u8] + d) == Err::<i32, IntParseError>(
            IntParseError::NegOverflow,
        ),
{
    lemma_scan_positional(d, false);
    lemma_scan_positional(d, true);
    assert(is_digit_byte(d[0]));
    assert((seq![43u8] + d).drop_first() =~= d);
    assert((seq![45u8] + d).drop_first() =~= d);
    assert((seq![43u8] + d)[0] == 43u8);
    assert((seq![45u8] + d)[0] == 45u8);
}

proof fn lemma_decimal_digits_value(n: nat)
    ensures
        all_digits(ascii_bytes(decimal_digits(n))),
        ascii_bytes(decimal_digits(n)).len() >= 1,
        positional_value(ascii_bytes(decimal_digits(n))) == n,
        n >= 1 ==> ascii_bytes(decimal_digits(n))[0] != 48u8,
    decreases n,
{
    let b = ascii_bytes(decimal_digits(n));
    if n < 10 {
        lemma_digit_char(n as int);
        assert(b =~= Seq::<u8>::empty().push((48 + n) as u8));
        lemma_positional_push(Seq::<u8>::empty(), (48 + n) as u8);
    } else {
        lemma_decimal_digits_value(n / 10);
        lemma_digit_char((n % 10) as int);
        let b1 = ascii_bytes(decimal_digits(n / 10));
        assert(b =~= b1.push((48 + n % 10) as u8));
        lemma_positional_push(b1, (48 + n % 10) as u8);
        assert(n == (n / 10) * 10 + n % 10) by {
            vstd::arithmetic::div_mod::lemma_fundamental_div_mod(n as int, 10);
        }
        assert(b[0] == b1[0]);
    }
}

/// The text `format_u64` writes for `n` is a text of decimal digits, without a
/// leading zero (unless `n` is zero), whose positional value is `n`.
pub proof fn lemma_format_u64_is_decimal(n: u64)
    ensures
        ({
            let b = vstd::utf8::encode_utf8(decimal_digits(n as nat));
            &&& all_digits(b)
            &&& b.len() >= 1
            &&& positional_value(b) == n
            &&& (n > 0 ==> b[0] != 48u8)
        }),
{
    lemma_decimal_digits_value(n as nat);
    lemma_decimal_digits_ascii(n as nat);
    lemma_encode_ascii(decimal_digits(n as nat));
}

/// The text `format_i32` writes for `v` is, for `v >= 0`, a text of decimal
/// digits without a leading zero (unless `v` is zero) whose positional value is
/// `v`; for `v < 0`, a `-` followed by such a text for `-v`.
pub proof fn lemma_format_i32_is_decimal(v: i32)
    ensures
        ({
            let b = vstd::utf8::encode_utf8(decimal_i32(v));
            &&& v >= 0 ==> all_digits(b) && b.len() >= 1 && positional_value(b) == v && (v > 0 ==> b[0] != 48u8)
            &&& v < 0 ==> b.len() >= 2 && b[0] == 45u8 && all_digits(b.drop_first())
                && positional_value(b.drop_first()) == -v && b[1] != 48u8
        }),
{
    let t = decimal_i32(v);
    if v < 0 {
        let m = (-v) as nat;
        lemma_decimal_digits_value(m);
        lemma_decimal_digits_ascii(m);
        assert(forall|i: int| 0 <= i < t.len() ==> '\0' <= #[trigger] t[i] <= '\u{7f}') by {
            assert forall|i: int| 0 <= i < t.len() implies '\0' <= #[trigger] t[i] <= '\u{7f}' by {
                if i > 0 {
                    assert(t[i] == decimal_digits(m)[i - 1]);
                }
            }
        }
        lemma_encode_ascii(t);
        let b = ascii_bytes(t);
        assert(b.drop_first() =~= ascii_bytes(decimal_digits(m)));
    } else {
        lemma_decimal_digits_value(v as nat);
        lemma_decimal_digits_ascii(v as nat);
        lemma_encode_ascii(t);
    }
}

} // verus!
