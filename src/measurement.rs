//! Decoding of measurement payloads such as `01643.122*m3`.

use vstd::prelude::*;

use crate::text::{
    all_digit_chars, all_digits, digits_to_u64, digits_value, find_char, index_of,
};
use crate::types::{Decimal, DsmrError, Measurement};

verus! {

/// The number of sign characters in front of `s`.
pub open spec fn sign_len(s: Seq<char>) -> int {
    if s.len() > 0 && (s[0] == '+' || s[0] == '-') {
        1
    } else {
        0
    }
}

/// The digits before the decimal point of the unsigned text `u`.
pub open spec fn whole_part(u: Seq<char>) -> Seq<char> {
    match index_of(u, '.') {
        Some(p) => u.subrange(0, p),
        None => u,
    }
}

/// The digits after the decimal point of the unsigned text `u`.
pub open spec fn fraction_part(u: Seq<char>) -> Seq<char> {
    match index_of(u, '.') {
        Some(p) => u.subrange(p + 1, u.len() as int),
        None => Seq::empty(),
    }
}

/// The number that `s` writes in decimal notation: an optional sign, digits,
/// and optionally a point followed by more digits, with at least one digit in
/// all. `None` where `s` is not of that form or its digits exceed `u64`.
pub open spec fn decimal_of(s: Seq<char>) -> Option<Decimal> {
    let u = s.subrange(sign_len(s), s.len() as int);
    let whole = whole_part(u);
    let frac = fraction_part(u);
    if all_digits(whole) && all_digits(frac) && whole.len() + frac.len() > 0 && digits_value(
        whole + frac,
    ) <= u64::MAX {
        Some(
            Decimal {
                negative: s.len() > 0 && s[0] == '-',
                mantissa: digits_value(whole + frac) as u64,
                scale: frac.len() as usize,
            },
        )
    } else {
        None
    }
}

/// What a measurement payload decodes to: the number before the first `*`
/// and the unit after it, verbatim.
pub open spec fn measurement_of(s: Seq<char>) -> Result<(Decimal, Seq<char>), DsmrError> {
    match index_of(s, '*') {
        None => Err(DsmrError::InvalidNumber),
        Some(k) => match decimal_of(s.subrange(0, k)) {
            None => Err(DsmrError::InvalidNumber),
            Some(d) => Ok((d, s.subrange(k + 1, s.len() as int))),
        },
    }
}

/// Decodes a number in decimal notation.
pub fn parse_decimal(s: &str) -> (r: Option<Decimal>)
    ensures
        r == decimal_of(s@),
{
    let n = s.unicode_len();
    let mut start: usize = 0;
    let mut negative = false;
    if n > 0 {
        let c = s.get_char(0);
        if c == '-' {
            negative = true;
            start = 1;
        } else if c == '+' {
            start = 1;
        }
    }
    let u = s.substring_char(start, n);
    let un = u.unicode_len();
    let (whole, frac) = match find_char(u, '.') {
        Some(p) => (u.substring_char(0, p), u.substring_char(p + 1, un)),
        None => (u, u.substring_char(un, un)),
    };
    assert(whole@ == whole_part(u@));
    assert(frac@ =~= fraction_part(u@));
    if !all_digit_chars(whole) || !all_digit_chars(frac) {
        return None;
    }
    let mut digits = String::from_str(whole);
    digits.append(frac);
    let digits_str = digits.as_str();
    let scale = frac.unicode_len();
    if digits_str.unicode_len() == 0 {
        return None;
    }
    assert(all_digits(digits_str@)) by {
        assert forall|i: int| 0 <= i < digits_str@.len() implies crate::text::is_digit(
            #[trigger] digits_str@[i],
        ) by {
            if i < whole@.len() {
                assert(digits_str@[i] == whole@[i]);
            } else {
                assert(digits_str@[i] == frac@[i - whole@.len()]);
            }
        }
    }
    match digits_to_u64(digits_str) {
        Some(mantissa) => Some(Decimal { negative, mantissa, scale }),
        None => None,
    }
}

/// Splits a payload at its first `*` into a number and a unit.
pub fn parse_measurement(value: &str) -> (r: Result<Measurement, DsmrError>)
    ensures
        match r {
            Ok(m) => measurement_of(value@) == Ok::<(Decimal, Seq<char>), DsmrError>(m@),
            Err(e) => measurement_of(value@) == Err::<(Decimal, Seq<char>), DsmrError>(e),
        },
{
    let n = value.unicode_len();
    match find_char(value, '*') {
        None => Err(DsmrError::InvalidNumber),
        Some(k) => match parse_decimal(value.substring_char(0, k)) {
            None => Err(DsmrError::InvalidNumber),
            Some(d) => Ok(Measurement { value: d, unit: value.substring_char(k + 1, n).to_owned() }),
        },
    }
}

} // verus!
