//! Small helpers on strings that the rest of the crate builds its texts with.

use vstd::prelude::*;
use vstd::string::*;

verus! {

/// `std::num::ParseIntError`: why a text is not a number. It is carried
/// through as it is; nothing is known of what it holds.
#[verifier::external_type_specification]
#[verifier::external_body]
pub struct ExParseIntError(std::num::ParseIntError);

/// `Clone` of `ParseIntError`: the copy is the same error.
pub assume_specification[ <std::num::ParseIntError as Clone>::clone ](
    error: &std::num::ParseIntError,
) -> (r: std::num::ParseIntError)
    ensures
        r == *error,
;

/// The text that `Display` of `ParseIntError` gives for `error`.
#[verifier::external_body]
pub(crate) fn int_error_text(error: &std::num::ParseIntError) -> String {
    error.to_string()
}

/// The value of one decimal digit.
pub open spec fn decimal_digit(c: char) -> Option<int> {
    if '0' <= c <= '9' {
        Some(c as int - '0' as int)
    } else {
        None
    }
}

/// The number that a row of decimal digits writes; `None` for an empty row
/// and for one that holds anything but decimal digits.
pub open spec fn decimal_number(digits: Seq<char>) -> Option<int>
    decreases digits.len(),
{
    if digits.len() == 0 {
        None
    } else if digits.len() == 1 {
        decimal_digit(digits[0])
    } else {
        match (decimal_number(digits.drop_last()), decimal_digit(digits.last())) {
            (Some(high), Some(low)) => Some(10 * high + low),
            _ => None,
        }
    }
}

/// The number that `text` writes in base 10: an optional `+`, then one or
/// more decimal digits whose number is at most `u64::MAX`.
pub open spec fn parse_decimal_u64(text: Seq<char>) -> Option<u64> {
    match decimal_number(
        if text.len() > 0 && text[0] == '+' {
            text.drop_first()
        } else {
            text
        },
    ) {
        Some(v) => if v <= u64::MAX {
            Some(v as u64)
        } else {
            None
        },
        None => None,
    }
}

/// `str::parse::<u64>`: the text is an optional `+` followed by decimal
/// digits only, at least one, and their number fits; anything else is an
/// error.
#[verifier::external_body]
pub(crate) fn parse_u64(text: &str) -> (r: Result<u64, std::num::ParseIntError>)
    ensures
        r is Ok <==> parse_decimal_u64(text@) is Some,
        r matches Ok(v) ==> parse_decimal_u64(text@) == Some(v),
{
    text.parse::<u64>()
}

/// `std::string::String::push`: the character is appended to the string.
pub assume_specification[ String::push ](s: &mut String, ch: char)
    ensures
        final(s)@ == old(s)@.push(ch),
;

/// Comparison of two string slices with `==` of `str`: true exactly when
/// both hold the same characters.
#[verifier::external_body]
pub(crate) fn str_eq(a: &str, b: &str) -> (r: bool)
    ensures
        r == (a@ == b@),
{
    a == b
}

/// Whether `text` begins with `prefix`.
pub open spec fn is_prefix(prefix: Seq<char>, text: Seq<char>) -> bool {
    prefix.len() <= text.len() && text.subrange(0, prefix.len() as int) == prefix
}

/// `str::starts_with` with a string slice as the pattern: true exactly when
/// the first characters of `text` are those of `prefix`.
#[verifier::external_body]
pub(crate) fn starts_with(text: &str, prefix: &str) -> (r: bool)
    ensures
        r == is_prefix(prefix@, text@),
{
    text.starts_with(prefix)
}

/// The concatenation of two string slices.
pub fn concat(a: &str, b: &str) -> (r: String)
    ensures
        r@ == a@ + b@,
{
    let mut r = String::from_str(a);
    r.append(b);
    r
}

/// A copy of an optional string.
pub fn clone_opt_string(s: &Option<String>) -> (r: Option<String>)
    ensures
        opt_text(r) == opt_text(*s),
{
    match s {
        Some(t) => Some(t.clone()),
        None => None,
    }
}

/// The characters of an optional string.
pub open spec fn opt_text(s: Option<String>) -> Option<Seq<char>> {
    match s {
        Some(t) => Some(t@),
        None => None,
    }
}

/// The character that writes the digit `d`.
pub open spec fn digit_char(d: int) -> char {
    if d == 0 {
        '0'
    } else if d == 1 {
        '1'
    } else if d == 2 {
        '2'
    } else if d == 3 {
        '3'
    } else if d == 4 {
        '4'
    } else if d == 5 {
        '5'
    } else if d == 6 {
        '6'
    } else if d == 7 {
        '7'
    } else if d == 8 {
        '8'
    } else {
        '9'
    }
}

/// `n` written in base 10, without leading zeros.
pub open spec fn decimal_text(n: nat) -> Seq<char>
    decreases n,
{
    if n < 10 {
        seq![digit_char(n as int)]
    } else {
        decimal_text(n / 10).push(digit_char((n % 10) as int))
    }
}

/// The character that writes the digit `d`.
fn digit_char_exec(d: usize) -> (c: char)
    requires
        d < 10,
    ensures
        c == digit_char(d as int),
{
    if d == 0 {
        '0'
    } else if d == 1 {
        '1'
    } else if d == 2 {
        '2'
    } else if d == 3 {
        '3'
    } else if d == 4 {
        '4'
    } else if d == 5 {
        '5'
    } else if d == 6 {
        '6'
    } else if d == 7 {
        '7'
    } else if d == 8 {
        '8'
    } else {
        '9'
    }
}

/// `n` written in base 10, without leading zeros.
pub fn decimal(n: usize) -> (r: String)
    ensures
        r@ == decimal_text(n as nat),
    decreases n,
{
    if n < 10 {
        let mut r = String::new();
        r.push(digit_char_exec(n));
        assert(r@ =~= seq![digit_char(n as int)]);
        r
    } else {
        let mut r = decimal(n / 10);
        r.push(digit_char_exec(n % 10));
        r
    }
}

} // verus!
