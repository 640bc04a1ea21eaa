//! How many decimal places show a number to a given count of significant digits.

use vstd::prelude::*;

verus! {

/// Decimal places that show `prec` significant digits of a nonzero number whose
/// decimal exponent (the floor of its base-10 logarithm) is `exponent`: fewer as
/// the integer part grows, never below zero; more as leading zeros follow the point.
pub open spec fn places_for_exponent(exponent: int, prec: int) -> int {
    if exponent >= 0 {
        if exponent + 1 <= prec {
            prec - (exponent + 1)
        } else {
            0
        }
    } else {
        prec + (-exponent - 1)
    }
}

/// Decimal places that show `prec` significant digits of a number whose decimal
/// exponent is `exponent`, or of zero (`None`), which shows none.
pub fn decimal_places(exponent: Option<i64>, prec: usize) -> (r: usize)
    requires
        exponent matches Some(e) ==> places_for_exponent(e as int, prec as int) <= usize::MAX,
    ensures
        r == match exponent {
            Some(e) => places_for_exponent(e as int, prec as int),
            None => 0,
        },
{
    match exponent {
        None => 0,
        Some(e) => {
            if e >= 0 {
                let digits = e as u64 + 1;
                if digits <= prec as u64 {
                    prec - digits as usize
                } else {
                    0
                }
            } else {
                let leading_zeros = (-(e + 1)) as u64;
                prec + leading_zeros as usize
            }
        },
    }
}

} // verus!
