//! The interest calculator: a pure function of principal and rate.

use vstd::prelude::*;

verus! {

/// Interest owed on principal `b` at the whole-percent rate `rate` under the
/// flat policy: `b * (rate / 100) / 100`, truncating at each division.
/// Truncation means interest on a small principal can round to zero; that is
/// the policy, not an error.
pub open spec fn flat_interest(b: int, rate: int) -> int {
    (b * (rate / 100)) / 100
}

/// Interest owed on principal `b` at the whole-percent rate `interest_rate`
/// (`500` stands for 5%), fixed once at deposit time.
///
/// Under the flat policy the result is a function of principal and rate
/// alone; the elapsed-days argument does not enter the computation.
pub fn calculate_interest(b: i128, interest_rate: u32, _days: u64) -> (r: i128)
    requires
        b >= 0,
        b * ((interest_rate as int) / 100) <= i128::MAX,
    ensures
        r == flat_interest(b as int, interest_rate as int),
        r >= 0,
    {
    let rate_percent: i128 = (interest_rate as i128) / 100;
    (b * rate_percent) / 100
}

} // verus!
