//! Verified parsing of decimal integer text: the value of a digit string,
//! and signed integer parsing with exact range behaviour.

use vstd::prelude::*;
use crate::errors::AuditError;

verus! {

/// Whether `c` is a decimal digit.
pub open spec fn is_digit(c: char) -> bool {
    48 <= c as int <= 57
}

/// The numeric value of the digit `c`.
pub open spec fn digit_val(c: char) -> int {
    c as int - 48
}

/// Whether every character of `s` is a decimal digit.
pub open spec fn all_digits(s: Seq<char>) -> bool {
    forall|k: int| 0 <= k < s.len() ==> is_digit(#[trigger] s[k])
}

/// The value of the digit string `s` read in base ten.
pub open spec fn digits_val(s: Seq<char>) -> int
    decreases s.len(),
{
    if s.len() == 0 {
        0
    } else {
        digits_val(s.drop_last()) * 10 + digit_val(s.last())
    }
}

/// The value of a digit string is never negative.
pub proof fn lemma_digits_val_nonneg(s: Seq<char>)
    requires
        all_digits(s),
    ensures
        digits_val(s) >= 0,
    decreases s.len(),
{
    if s.len() > 0 {
        assert(all_digits(s.drop_last()));
        lemma_digits_val_nonneg(s.drop_last());
    }
}

/// Reading further digits never decreases the value: the value of a prefix
/// is at most the value of the whole string.
pub proof fn lemma_digits_val_prefix_le(s: Seq<char>, i: int)
    requires
        0 <= i <= s.len(),
        all_digits(s),
    ensures
        digits_val(s.take(i)) <= digits_val(s),
    decreases s.len() - i,
{
    if i == s.len() {
        assert(s.take(i) =~= s);
    } else {
        assert(s.take(i + 1).drop_last() =~= s.take(i));
        assert(s.take(i + 1).last() == s[i]);
        assert(all_digits(s.take(i)));
        lemma_digits_val_nonneg(s.take(i));
        assert(digits_val(s.take(i + 1)) == digits_val(s.take(i)) * 10 + digit_val(s[i]));
        lemma_digits_val_prefix_le(s, i + 1);
    }
}

/// Short digit strings have small values: with at most three digits the
/// value stays under a thousand.
pub proof fn lemma_digits_val_small(s: Seq<char>)
    requires
        all_digits(s),
    ensures
        s.len() == 0 ==> digits_val(s) == 0,
        s.len() == 1 ==> digits_val(s) <= 9,
        s.len() == 2 ==> digits_val(s) <= 99,
        s.len() == 3 ==> digits_val(s) <= 999,
    decreases s.len(),
{
    if s.len() > 0 {
        assert(all_digits(s.drop_last()));
        lemma_digits_val_small(s.drop_last());
    }
}

/// The digit part of signed integer text: everything after a leading sign.
pub open spec fn int_text_digits(s: Seq<char>) -> Seq<char> {
    if s.len() > 0 && (s[0] == '+' || s[0] == '-') {
        s.skip(1)
    } else {
        s
    }
}

/// Whether `s` is well-formed signed integer text: an optional sign followed
/// by at least one digit and nothing else.
pub open spec fn int_text_valid(s: Seq<char>) -> bool {
    let d = int_text_digits(s);
    d.len() > 0 && all_digits(d)
}

/// The mathematical value of well-formed signed integer text.
pub open spec fn int_text_val(s: Seq<char>) -> int {
    if s.len() > 0 && s[0] == '-' {
        -digits_val(int_text_digits(s))
    } else {
        digits_val(int_text_digits(s))
    }
}

/// What parsing `s` as a machine integer yields: its value when `s` is
/// well formed and the value fits, nothing otherwise.
pub open spec fn parse_int_spec(s: Seq<char>) -> Option<int> {
    if int_text_valid(s) && (isize::MIN as int) <= int_text_val(s) <= (isize::MAX as int) {
        Some(int_text_val(s))
    } else {
        None
    }
}

/// The value of the digit string `s`, unless `s` is empty, holds a
/// non-digit, or its value exceeds `limit`.
pub(crate) fn digits_value_upto(s: &str, limit: u128) -> (r: Option<u128>)
    requires
        limit <= u64::MAX as u128,
    ensures
        r matches Some(v) ==> s@.len() > 0 && all_digits(s@) && digits_val(s@) == v as int
            && v <= limit,
        r is None <==> !(s@.len() > 0 && all_digits(s@) && digits_val(s@) <= limit as int),
{
    let n = s.unicode_len();
    if n == 0 {
        return None;
    }
    let mut i: usize = 0;
    let mut mag: u128 = 0;
    while i < n
        invariant
            i <= n,
            n == s@.len(),
            n > 0,
            limit <= u64::MAX as u128,
            all_digits(s@.take(i as int)),
            mag as int == digits_val(s@.take(i as int)),
            mag <= limit,
        decreases n - i,
    {
        let c = s.get_char(i);
        let cv = c as u32;
        if cv < 48 || cv > 57 {
            assert(!is_digit(s@[i as int]));
            return None;
        }
        let d = (cv - 48) as u128;
        proof {
            assert(s@.take(i as int + 1).drop_last() =~= s@.take(i as int));
            assert(s@.take(i as int + 1).last() == s@[i as int]);
        }
        let newmag = mag * 10 + d;
        assert(newmag as int == digits_val(s@.take(i as int + 1)));
        if newmag > limit {
            proof {
                if all_digits(s@) {
                    lemma_digits_val_prefix_le(s@, i as int + 1);
                }
            }
            return None;
        }
        mag = newmag;
        i += 1;
    }
    proof {
        assert(s@.take(n as int) =~= s@);
    }
    Some(mag)
}

/// Parses `s` as a signed machine integer read in base ten: an optional
/// `+` or `-` sign followed by digits. Fails exactly when the text is not of
/// that shape or the value does not fit in `isize`.
pub fn parse_isize(s: &str) -> (r: Result<isize, AuditError>)
    ensures
        r matches Ok(v) ==> parse_int_spec(s@) == Some(v as int),
        r is Err <==> parse_int_spec(s@) is None,
        r matches Err(e) ==> e == AuditError::InvalidNumber,
{
    let n = s.unicode_len();
    if n == 0 {
        return Err(AuditError::InvalidNumber);
    }
    let c0 = s.get_char(0);
    let neg = c0 == '-';
    let signed = neg || c0 == '+';
    let digits: &str = if signed {
        s.substring_char(1, n)
    } else {
        s
    };
    proof {
        assert(digits@ =~= int_text_digits(s@));
    }
    let limit: u128 = if neg {
        (isize::MAX as u128) + 1
    } else {
        isize::MAX as u128
    };
    match digits_value_upto(digits, limit) {
        None => {
            proof {
                if int_text_valid(s@) {
                    lemma_digits_val_nonneg(int_text_digits(s@));
                }
            }
            Err(AuditError::InvalidNumber)
        },
        Some(mag) => {
            proof {
                lemma_digits_val_nonneg(digits@);
            }
            if neg {
                if mag == (isize::MAX as u128) + 1 {
                    Ok(isize::MIN)
                } else {
                    let m = mag as isize;
                    Ok(-m)
                }
            } else {
                Ok(mag as isize)
            }
        },
    }
}

} // verus!
