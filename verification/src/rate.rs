use vstd::prelude::*;

use vstd::arithmetic::div_mod::{lemma_div_is_ordered, lemma_div_multiples_vanish};
use vstd::math::min;

use crate::errors::LendingPoolError;
use crate::ledger::PoolState;

verus! {

/// Minimum interest rate, in basis points, reported at zero utilization.
pub const MIN_RATE: i16 = 0;

/// Maximum interest rate, in basis points, reported at full utilization.
pub const MAX_RATE: i16 = 10000;

/// One hundred percent expressed in basis points.
pub const BASIS_POINTS_DIVISOR: u128 = 10000;

/// Pool utilization in basis points: the floored ratio of borrows to
/// deposits, clamped to 100%. Zero when the pool holds no deposits.
pub open spec fn utilization_bps(total_deposits: u64, total_borrows: u64) -> int {
    if total_deposits == 0 {
        0
    } else {
        min(
            total_borrows * (BASIS_POINTS_DIVISOR as int) / (total_deposits as int),
            BASIS_POINTS_DIVISOR as int,
        )
    }
}

/// The interest rate, in basis points, for a ledger snapshot: linear in
/// utilization, rising from `MIN_RATE` at 0% utilization to `MAX_RATE` at
/// 100%, clamped to `MAX_RATE`. A pool with no deposits reports `MIN_RATE`.
///
/// Deterministic by construction: the rate depends on the snapshot alone.
pub open spec fn interest_rate_bps(total_deposits: u64, total_borrows: u64) -> int {
    if total_deposits == 0 {
        MIN_RATE as int
    } else {
        min(
            ((MAX_RATE - MIN_RATE) as int) * utilization_bps(total_deposits, total_borrows)
                / (BASIS_POINTS_DIVISOR as int) + MIN_RATE,
            MAX_RATE as int,
        )
    }
}

/// Computes the interest rate for the pool's current utilization.
///
/// Every arithmetic step is checked; the wide (128-bit) intermediates make
/// overflow unreachable for 64-bit balances, so the computation always
/// succeeds and returns exactly the modelled rate.
pub fn compute_interest_rate(pool: &PoolState) -> (r: Result<i16, LendingPoolError>)
    ensures
        r is Ok,
        r->Ok_0 == interest_rate_bps(pool.total_deposits, pool.total_borrows),
        MIN_RATE <= r->Ok_0 <= MAX_RATE,
{
    let total_deposits: u128 = pool.total_deposits as u128;
    let total_borrows: u128 = pool.total_borrows as u128;

    if total_deposits == 0 {
        return Ok(MIN_RATE);
    }

    let scaled: u128 = match total_borrows.checked_mul(BASIS_POINTS_DIVISOR) {
        Some(s) => s,
        None => {
            return Err(LendingPoolError::MathOverflow);
        }
    };

    let raw_utilization: u128 = match scaled.checked_div(total_deposits) {
        Some(u) => u,
        None => {
            return Err(LendingPoolError::MathOverflow);
        }
    };

    // Clamp utilization to 100%.
    let utilization: u128 = if raw_utilization < BASIS_POINTS_DIVISOR {
        raw_utilization
    } else {
        BASIS_POINTS_DIVISOR
    };

    let rate_range: u128 = (MAX_RATE - MIN_RATE) as u128;

    let product: u128 = match rate_range.checked_mul(utilization) {
        Some(p) => p,
        None => {
            return Err(LendingPoolError::MathOverflow);
        }
    };

    let quotient: u128 = match product.checked_div(BASIS_POINTS_DIVISOR) {
        Some(q) => q,
        None => {
            return Err(LendingPoolError::MathOverflow);
        }
    };

    let interest_rate: u128 = match quotient.checked_add(MIN_RATE as u128) {
        Some(v) => v,
        None => {
            return Err(LendingPoolError::MathOverflow);
        }
    };

    // Cap the rate at MAX_RATE; the result then fits in an i16.
    let capped: u128 = if interest_rate < MAX_RATE as u128 {
        interest_rate
    } else {
        MAX_RATE as u128
    };
    Ok(capped as i16)
}

/// Rate boundary law: a pool holding no deposits reports the minimum rate,
/// whatever is recorded as borrowed.
pub proof fn lemma_rate_zero_deposits(total_borrows: u64)
    ensures
        interest_rate_bps(0, total_borrows) == MIN_RATE,
{
}

/// Rate boundary law: a fully utilized pool (borrows equal to deposits)
/// reports the maximum rate.
pub proof fn lemma_rate_full_utilization(total_deposits: u64)
    requires
        total_deposits > 0,
    ensures
        interest_rate_bps(total_deposits, total_deposits) == MAX_RATE,
{
    lemma_div_multiples_vanish(BASIS_POINTS_DIVISOR as int, total_deposits as int);
    assert(utilization_bps(total_deposits, total_deposits) == BASIS_POINTS_DIVISOR as int);
}

/// Rate monotonicity law: for a fixed positive deposit total, the modelled
/// rate is non-decreasing in the borrow total.
pub proof fn lemma_rate_monotonic(total_deposits: u64, borrows_lo: u64, borrows_hi: u64)
    requires
        total_deposits > 0,
        borrows_lo <= borrows_hi,
    ensures
        interest_rate_bps(total_deposits, borrows_lo)
            <= interest_rate_bps(total_deposits, borrows_hi),
{
    let d = total_deposits as int;
    let bpd = BASIS_POINTS_DIVISOR as int;
    lemma_div_is_ordered(borrows_lo * bpd, borrows_hi * bpd, d);
    let u_lo = utilization_bps(total_deposits, borrows_lo);
    let u_hi = utilization_bps(total_deposits, borrows_hi);
    assert(u_lo <= u_hi);
    let range = (MAX_RATE - MIN_RATE) as int;
    lemma_div_is_ordered(range * u_lo, range * u_hi, bpd);
}

} // verus!
