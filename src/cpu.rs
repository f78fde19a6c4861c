//! Reading the CPU temperature out of the text that the kernel exposes.
use crate::MilliCelsius;
use vstd::prelude::*;

verus! {

/// A frequency in hertz.
#[derive(Debug, Clone, Copy, PartialEq, Eq, Structural)]
pub struct Hertz(pub i64);

/// A non-empty run of ASCII decimal digits.
pub open spec fn is_digits(d: Seq<char>) -> bool {
    d.len() > 0 && forall|i: int| 0 <= i < d.len() ==> '0' <= #[trigger] d[i] <= '9'
}

/// The value of the decimal digits `d`, most significant first.
pub open spec fn digits_value(d: Seq<char>) -> int
    decreases d.len(),
{
    if d.len() == 0 {
        0
    } else {
        digits_value(d.drop_last()) * 10 + (d.last() as int - '0' as int)
    }
}

/// The integer that `s` spells: an optional `+` or `-` and then decimal
/// digits, nothing else.
pub open spec fn signed_decimal(s: Seq<char>) -> Option<int> {
    if s.len() > 0 && s[0] == '-' && is_digits(s.skip(1)) {
        Some(-digits_value(s.skip(1)))
    } else if s.len() > 0 && s[0] == '+' && is_digits(s.skip(1)) {
        Some(digits_value(s.skip(1)))
    } else if is_digits(s) {
        Some(digits_value(s))
    } else {
        None
    }
}

/// What parsing `s` as an `i32` gives: the integer it spells, where that fits.
pub open spec fn parsed_i32(s: Seq<char>) -> Option<i32> {
    match signed_decimal(s) {
        Some(v) => if i32::MIN <= v <= i32::MAX {
            Some(v as i32)
        } else {
            None
        },
        None => None,
    }
}

/// `s` without its leading and trailing white space.
pub uninterp spec fn trimmed(s: Seq<char>) -> Seq<char>;

/// Relies on `str::trim`: drops leading and trailing Unicode white space, a
/// function of the characters alone.
#[verifier::external_body]
fn trim_whitespace(s: &str) -> (r: &str)
    ensures
        r@ == trimmed(s@),
{
    s.trim()
}

/// Relies on `i32::from_str` (`str::parse::<i32>`): it accepts an optional
/// sign followed by decimal digits, and fails on anything else, on an empty
/// string, and on a value out of range.
#[verifier::external_body]
fn parse_i32(s: &str) -> (r: Option<i32>)
    ensures
        r == parsed_i32(s@),
{
    s.parse::<i32>().ok()
}

/// The temperature that `text` spells in milli-Celsius.
pub open spec fn temperature_of(text: Seq<char>) -> Option<MilliCelsius> {
    match parsed_i32(text) {
        Some(v) => Some(MilliCelsius(v)),
        None => None,
    }
}

/// The temperature that `text` spells in milli-Celsius, or `None` where it is
/// no integer that fits in an `i32`. White space is not skipped.
pub fn parse_temperature(text: &str) -> (r: Option<MilliCelsius>)
    ensures
        r == temperature_of(text@),
{
    match parse_i32(text) {
        Some(v) => Some(MilliCelsius(v)),
        None => None,
    }
}

/// The CPU temperature from the contents of the sensor files: the primary
/// file where it could be read, else the fallback one. The chosen text is
/// trimmed and parsed; `None` where neither could be read or the text is no
/// integer.
pub fn get_cpu_temperature(primary: Option<&str>, fallback: Option<&str>) -> (r: Option<
    MilliCelsius,
>)
    ensures
        r == (match primary {
            Some(p) => temperature_of(trimmed(p@)),
            None => match fallback {
                Some(f) => temperature_of(trimmed(f@)),
                None => None,
            },
        }),
{
    let data = match primary {
        Some(p) => p,
        None => match fallback {
            Some(f) => f,
            None => return None,
        },
    };
    parse_temperature(trim_whitespace(data))
}

} // verus!
