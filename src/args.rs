//! Reading the byte-valued arguments of a command: the kind and the pattern id.

use vstd::prelude::*;

verus! {

/// Whether every character of `s` is an ASCII decimal digit.
pub open spec fn all_digits(s: Seq<char>) -> bool {
    forall|i: int| 0 <= i < s.len() ==> '0' <= #[trigger] s[i] <= '9'
}

/// The value of the decimal digits `s`, most significant first.
pub open spec fn digits_value(s: Seq<char>) -> int
    decreases s.len(),
{
    if s.len() == 0 {
        0
    } else {
        digits_value(s.drop_last()) * 10 + (s.last() as int - '0' as int)
    }
}

/// The byte written in decimal by `s`: an optional `+`, then one or more
/// digits whose value is at most 255. Anything else writes no byte.
pub open spec fn decimal_byte(s: Seq<char>) -> Option<u8> {
    let d = if s.len() > 0 && s[0] == '+' {
        s.drop_first()
    } else {
        s
    };
    if d.len() > 0 && all_digits(d) && digits_value(d) <= 255 {
        Some(digits_value(d) as u8)
    } else {
        None
    }
}

/// Relies on `u8::from_str_radix` with radix 10, which accepts exactly an
/// optional `+` followed by one or more digits whose value fits in a byte.
#[verifier::external_body]
fn parse_decimal_byte(s: &str) -> (r: Option<u8>)
    ensures
        r == decimal_byte(s@),
{
    u8::from_str_radix(s, 10).ok()
}

/// The byte that an argument writes in decimal, or 0 where it writes none.
pub fn byte_arg(s: &str) -> (r: u8)
    ensures
        decimal_byte(s@) matches Some(v) ==> r == v,
        decimal_byte(s@) is None ==> r == 0,
{
    match parse_decimal_byte(s) {
        Some(v) => v,
        None => 0,
    }
}

} // verus!
