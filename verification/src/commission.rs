//! Commission split arithmetic: a designated account receives an additional
//! mint equal to a fixed percentage of each issued amount, rounded down.

use vstd::prelude::*;

verus! {

/// The commission owed on `amount` at `percent`: `floor(amount * percent / 100)`.
pub open spec fn spec_commission(amount: u64, percent: u16) -> int {
    amount * percent / 100
}

/// Computes the commission portion of a minted amount. The product is formed
/// in 128-bit arithmetic, so no intermediate overflow is possible, and the
/// result fits in a `u64` whenever `percent <= 100` because the commission
/// never exceeds the amount itself.
pub fn compute_commission(amount: u64, percent: u16) -> (commission: u64)
    requires
        percent <= 100,
    ensures
        commission == spec_commission(amount, percent),
        commission <= amount,
{
    proof {
        assert(amount * percent <= amount * 100) by (nonlinear_arith)
            requires percent <= 100;
        assert(amount * 100 / 100 == amount) by (nonlinear_arith);
        assert(amount * percent / 100 <= amount * 100 / 100) by (nonlinear_arith)
            requires amount * percent <= amount * 100;
    }
    let wide: u128 = (amount as u128) * (percent as u128);
    (wide / 100) as u64
}

} // verus!
