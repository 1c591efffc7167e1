//! Device addresses as written on a command line: decimal, or hexadecimal
//! after `0x` or `0X`, with surrounding whitespace ignored.
use vstd::prelude::*;

verus! {

/// `s` without leading and trailing whitespace.
pub uninterp spec fn trim_whitespace(s: Seq<char>) -> Seq<char>;

/// Relies on `str::trim`: the trimmed text depends on the text alone.
#[verifier::external_body]
fn trim_ws(s: &str) -> (r: &str)
    ensures
        r@ == trim_whitespace(s@),
{
    s.trim()
}

/// The value of digit `c` in base `radix`, if it is one: `0-9`, then letters
/// of either case from ten.
pub open spec fn digit_of(c: char, radix: u32) -> Option<nat> {
    let v: int = if '0' <= c && c <= '9' {
        c as int - '0' as int
    } else if 'a' <= c && c <= 'z' {
        c as int - 'a' as int + 10
    } else if 'A' <= c && c <= 'Z' {
        c as int - 'A' as int + 10
    } else {
        36
    };
    if v < radix {
        Some(v as nat)
    } else {
        None
    }
}

/// The value of a non-empty digit string in base `radix`.
pub open spec fn digits_value(s: Seq<char>, radix: u32) -> Option<nat>
    decreases s.len(),
{
    if s.len() == 0 {
        None
    } else if s.len() == 1 {
        digit_of(s[0], radix)
    } else {
        match (digits_value(s.drop_last(), radix), digit_of(s.last(), radix)) {
            (Some(a), Some(d)) => Some((a * radix + d) as nat),
            _ => None,
        }
    }
}

/// The value of an unsigned integer literal: an optional `+`, then digits.
pub open spec fn unsigned_value(s: Seq<char>, radix: u32) -> Option<nat> {
    if s.len() > 0 && s[0] == '+' {
        digits_value(s.drop_first(), radix)
    } else {
        digits_value(s, radix)
    }
}

/// Relies on `u8::from_str_radix`: an optional `+` and digits of the radix,
/// whose value fits a byte, parse to that value; anything else is an error,
/// reported with its message.
#[verifier::external_body]
fn byte_from_str_radix(s: &str, radix: u32) -> (r: Result<u8, String>)
    requires
        2 <= radix <= 36,
    ensures
        match unsigned_value(s@, radix) {
            Some(v) => if v < 256 {
                r == Ok::<u8, String>(v as u8)
            } else {
                r is Err
            },
            None => r is Err,
        },
{
    match u8::from_str_radix(s, radix) {
        Ok(v) => Ok(v),
        Err(e) => Err(e.to_string()),
    }
}

/// The digits of an address and their radix.
pub open spec fn address_digits(t: Seq<char>) -> (Seq<char>, u32) {
    if t.len() >= 2 && t[0] == '0' && (t[1] == 'x' || t[1] == 'X') {
        (t.subrange(2, t.len() as int), 16)
    } else {
        (t, 10)
    }
}

/// Parses a device address; the error carries the parser's message.
pub fn parse_address(s: &str) -> (r: Result<u8, String>)
    ensures
        ({
            let (digits, radix) = address_digits(trim_whitespace(s@));
            match unsigned_value(digits, radix) {
                Some(v) => if v < 256 {
                    r == Ok::<u8, String>(v as u8)
                } else {
                    r is Err
                },
                None => r is Err,
            }
        }),
{
    let t = trim_ws(s);
    let n = t.unicode_len();
    if n >= 2 && t.get_char(0) == '0' && (t.get_char(1) == 'x' || t.get_char(1) == 'X') {
        byte_from_str_radix(t.substring_char(2, n), 16)
    } else {
        byte_from_str_radix(t, 10)
    }
}

} // verus!
