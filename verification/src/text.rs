//! Small text utilities shared by the request and error helpers: decimal
//! rendering of integers, ASCII digit parsing and whitespace trimming.

use vstd::prelude::*;

verus! {

/// The ASCII digit for a value below ten.
pub open spec fn digit_char(d: nat) -> char
    recommends
        d < 10,
{
    (('0' as u8) + d) as char
}

/// Decimal rendering of a natural number, most significant digit first,
/// without leading zeros (`0` renders as `"0"`).
pub open spec fn decimal(n: nat) -> Seq<char>
    decreases n,
{
    if n < 10 {
        seq![digit_char(n)]
    } else {
        decimal(n / 10).push(digit_char(n % 10))
    }
}

/// Appends one character to a `String` (`String::push`).
#[verifier::external_body]
pub(crate) fn push_char(s: &mut String, c: char)
    ensures
        final(s)@ == old(s)@.push(c),
{
    s.push(c);
}

/// Appends the decimal rendering of `n` to `out`.
pub fn push_decimal(out: &mut String, n: u64)
    ensures
        final(out)@ == old(out)@ + decimal(n as nat),
    decreases n,
{
    if n < 10 {
        let c = ((n as u8) + 48u8) as char;
        push_char(out, c);
        assert(old(out)@ + decimal(n as nat) == old(out)@.push(c));
    } else {
        push_decimal(out, n / 10);
        let d = (n % 10) as u8;
        let c = (d + 48u8) as char;
        let ghost mid = out@;
        push_char(out, c);
        assert(decimal(n as nat) == decimal((n / 10) as nat).push(digit_char((n % 10) as nat)));
        assert(out@ == old(out)@ + decimal(n as nat));
    }
}

/// Decimal rendering of a `u16` as a fresh `String`.
pub fn u16_to_decimal(n: u16) -> (s: String)
    ensures
        s@ == decimal(n as nat),
{
    let mut s = String::new();
    push_decimal(&mut s, n as u64);
    assert(s@ == decimal(n as nat));
    s
}

/// Whether `c` is an ASCII decimal digit.
pub open spec fn is_ascii_digit(c: char) -> bool {
    '0' <= c && c <= '9'
}

/// Value of a string of ASCII digits read in base ten.
pub open spec fn digits_value(cs: Seq<char>) -> nat
    decreases cs.len(),
{
    if cs.len() == 0 {
        0
    } else {
        digits_value(cs.drop_last()) * 10 + (cs.last() as nat - 48) as nat
    }
}

/// What std's `FromStr` for a primitive integer type accepts, given whether
/// the type is signed and its range: an optional sign (`-` only for signed
/// types), then at least one ASCII digit and nothing else, with the value in
/// range. `None` when std reports an error.
pub open spec fn parsed_integer(cs: Seq<char>, signed: bool, min: int, max: int) -> Option<int> {
    let has_plus = cs.len() > 0 && cs[0] == '+';
    let has_minus = signed && cs.len() > 0 && cs[0] == '-';
    let digits = if has_plus || has_minus { cs.skip(1) } else { cs };
    if digits.len() == 0 || !(forall|i: int| 0 <= i < digits.len() ==> is_ascii_digit(#[trigger] digits[i])) {
        None
    } else {
        let v: int = if has_minus { -(digits_value(digits) as int) } else { digits_value(digits) as int };
        if min <= v && v <= max {
            Some(v)
        } else {
            None
        }
    }
}

/// `str::parse::<i64>` (std's `FromStr` for `i64`).
#[verifier::external_body]
pub(crate) fn parse_i64(s: &str) -> (r: Option<i64>)
    ensures
        match r {
            Some(v) => parsed_integer(s@, true, i64::MIN as int, i64::MAX as int) == Some(v as int),
            None => parsed_integer(s@, true, i64::MIN as int, i64::MAX as int) is None,
        },
{
    s.parse::<i64>().ok()
}

/// `str::parse::<u32>` (std's `FromStr` for `u32`).
#[verifier::external_body]
pub(crate) fn parse_u32(s: &str) -> (r: Option<u32>)
    ensures
        match r {
            Some(v) => parsed_integer(s@, false, 0, u32::MAX as int) == Some(v as int),
            None => parsed_integer(s@, false, 0, u32::MAX as int) is None,
        },
{
    s.parse::<u32>().ok()
}

} // verus!
