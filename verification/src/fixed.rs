//! Fixed-point decimal values. Credit hours, quality points and GPA appear
//! in the document as unsigned decimals with at most three fraction digits;
//! they are held exactly, in thousandths, so that no rounding is involved.

use vstd::prelude::*;
use crate::errors::AuditError;
use crate::numbers::{
    all_digits, digits_val, digits_value_upto, lemma_digits_val_nonneg, lemma_digits_val_small,
};
use crate::text::{split_on, split_spec, views_of};

verus! {

/// A decimal number held exactly as a count of thousandths.
#[derive(Debug, Copy, Clone, PartialEq, Eq, Structural)]
pub struct FixedPoint {
    /// The value, in thousandths: `4.00` is held as `4000`.
    pub milli: isize,
}

impl FixedPoint {
    /// The zero value, the state of every statistic before its field of the
    /// summary section is read.
    pub fn zero() -> (r: FixedPoint)
        ensures
            r.milli == 0,
    {
        FixedPoint { milli: 0 }
    }
}

/// How many thousandths one unit of the fraction part stands for, given how
/// many fraction digits were written.
pub open spec fn frac_scale(len: int) -> int {
    if len == 1 {
        100
    } else if len == 2 {
        10
    } else {
        1
    }
}

/// What parsing `s` as an unsigned decimal yields, in thousandths: digits,
/// optionally followed by a point and one to three fraction digits. Nothing
/// when the text is not of that shape or the value does not fit.
pub open spec fn parse_fixed_spec(s: Seq<char>) -> Option<int> {
    let parts = split_spec(s, '.');
    if parts.len() == 1 && parts[0].len() > 0 && all_digits(parts[0]) {
        let v = digits_val(parts[0]) * 1000;
        if v <= isize::MAX as int {
            Some(v)
        } else {
            None
        }
    } else if parts.len() == 2 && parts[0].len() > 0 && all_digits(parts[0])
        && 1 <= parts[1].len() <= 3 && all_digits(parts[1]) {
        let v = digits_val(parts[0]) * 1000 + digits_val(parts[1]) * frac_scale(
            parts[1].len() as int,
        );
        if v <= isize::MAX as int {
            Some(v)
        } else {
            None
        }
    } else {
        None
    }
}

/// Parses `s` as an unsigned decimal with at most three fraction digits,
/// exactly as `parse_fixed_spec` describes.
pub fn parse_fixed(s: &str) -> (r: Result<FixedPoint, AuditError>)
    ensures
        r matches Ok(f) ==> parse_fixed_spec(s@) == Some(f.milli as int),
        r is Err <==> parse_fixed_spec(s@) is None,
        r matches Err(e) ==> e == AuditError::InvalidDecimal,
{
    let parts = split_on(s, '.');
    proof {
        assert(views_of(parts@).len() == parts@.len());
    }
    if parts.len() == 1 {
        proof {
            assert(views_of(parts@)[0] == parts@[0]@);
        }
        match digits_value_upto(parts[0].as_str(), u64::MAX as u128) {
            None => {
                proof {
                    if parts@[0]@.len() > 0 && all_digits(parts@[0]@) {
                        // the value itself exceeds `u64::MAX`, so scaled to
                        // thousandths it exceeds `isize::MAX` as well
                        lemma_digits_val_nonneg(parts@[0]@);
                    }
                }
                Err(AuditError::InvalidDecimal)
            },
            Some(m) => {
                let milli = m * 1000;
                if milli > isize::MAX as u128 {
                    return Err(AuditError::InvalidDecimal);
                }
                Ok(FixedPoint { milli: milli as isize })
            },
        }
    } else if parts.len() == 2 {
        proof {
            assert(views_of(parts@)[0] == parts@[0]@);
            assert(views_of(parts@)[1] == parts@[1]@);
        }
        let fraclen = parts[1].as_str().unicode_len();
        if fraclen < 1 || fraclen > 3 {
            return Err(AuditError::InvalidDecimal);
        }
        let fracpart = digits_value_upto(parts[1].as_str(), 999);
        let f = match fracpart {
            None => {
                proof {
                    if all_digits(parts@[1]@) {
                        lemma_digits_val_small(parts@[1]@);
                    }
                }
                return Err(AuditError::InvalidDecimal);
            },
            Some(f) => f,
        };
        let m = match digits_value_upto(parts[0].as_str(), u64::MAX as u128) {
            None => {
                proof {
                    if parts@[0]@.len() > 0 && all_digits(parts@[0]@) {
                        lemma_digits_val_nonneg(parts@[0]@);
                        lemma_digits_val_nonneg(parts@[1]@);
                    }
                }
                return Err(AuditError::InvalidDecimal);
            },
            Some(m) => m,
        };
        let scale: u128 = if fraclen == 1 {
            100
        } else if fraclen == 2 {
            10
        } else {
            1
        };
        let milli = m * 1000 + f * scale;
        if milli > isize::MAX as u128 {
            return Err(AuditError::InvalidDecimal);
        }
        Ok(FixedPoint { milli: milli as isize })
    } else {
        Err(AuditError::InvalidDecimal)
    }
}

} // verus!
