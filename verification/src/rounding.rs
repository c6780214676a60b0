//! Fixed-point rounding of readings to two decimal places.
//!
//! A raw reading arrives scaled by 1000 (milli-units); a stored value is
//! scaled by 100 (centi-units), i.e. rounded to two decimal places. Rounding
//! is half away from zero, matching the usual rounding of a real number.

use vstd::prelude::*;

verus! {

/// Rounds a milli-scaled value (thousandths of a unit) to centi scale
/// (hundredths of a unit), half away from zero.
pub open spec fn spec_round_milli_to_centi(m: int) -> int {
    if m >= 0 {
        (m + 5) / 10
    } else {
        -(((-m) + 5) / 10)
    }
}

/// Rounds a milli-scaled value to centi scale, half away from zero.
/// The bounds only keep `|m| + 5` inside `i64`.
pub fn round_milli_to_centi(m: i64) -> (c: i64)
    requires
        i64::MIN + 10 <= m <= i64::MAX - 5,
    ensures
        c == spec_round_milli_to_centi(m as int),
{
    if m >= 0 {
        (m + 5) / 10
    } else {
        -(((-m) + 5) / 10)
    }
}

/// Rounding to two decimals is idempotent: a value that is already at centi
/// precision (here: a centi value re-read at milli scale) rounds to itself.
pub proof fn lemma_round_idempotent(m: int)
    ensures
        spec_round_milli_to_centi(spec_round_milli_to_centi(m) * 10) == spec_round_milli_to_centi(
            m,
        ),
{
    let c = spec_round_milli_to_centi(m);
    if c >= 0 {
        assert((c * 10 + 5) / 10 == c) by (nonlinear_arith);
    } else {
        assert((-(c * 10) + 5) / 10 == -c) by (nonlinear_arith);
    }
}

} // verus!
