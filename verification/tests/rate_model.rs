use lending_pool::ledger::PoolState;
use lending_pool::rate::compute_interest_rate;

#[test]
fn empty_pool_rate_is_zero() {
    let pool = PoolState { total_deposits: 0, total_borrows: 0 };
    assert_eq!(compute_interest_rate(&pool), Ok(0));
}

#[test]
fn zero_deposits_rate_is_zero_whatever_is_borrowed() {
    let pool = PoolState { total_deposits: 0, total_borrows: 123456 };
    assert_eq!(compute_interest_rate(&pool), Ok(0));
}

#[test]
fn half_utilization_rate_is_half_the_range() {
    let pool = PoolState { total_deposits: 1000, total_borrows: 500 };
    assert_eq!(compute_interest_rate(&pool), Ok(5000));
}

#[test]
fn full_utilization_rate_is_maximum() {
    let pool = PoolState { total_deposits: 1000, total_borrows: 1000 };
    assert_eq!(compute_interest_rate(&pool), Ok(10000));
}

#[test]
fn utilization_above_full_is_clamped() {
    let pool = PoolState { total_deposits: 100, total_borrows: 200 };
    assert_eq!(compute_interest_rate(&pool), Ok(10000));
}

#[test]
fn rate_floors_fractional_utilization() {
    // 1 / 3 of the pool borrowed: 3333.33... bps floors to 3333.
    let pool = PoolState { total_deposits: 3, total_borrows: 1 };
    assert_eq!(compute_interest_rate(&pool), Ok(3333));
}

#[test]
fn rate_is_monotone_in_borrows() {
    let mut previous: i16 = 0;
    let mut borrowed: u64 = 0;
    while borrowed <= 1000 {
        let pool = PoolState { total_deposits: 1000, total_borrows: borrowed };
        let rate = compute_interest_rate(&pool).unwrap();
        assert!(rate >= previous);
        previous = rate;
        borrowed += 50;
    }
}

#[test]
fn rate_is_deterministic_for_a_snapshot() {
    let pool = PoolState { total_deposits: 987654321, total_borrows: 12345678 };
    assert_eq!(compute_interest_rate(&pool), compute_interest_rate(&pool));
}

#[test]
fn rate_survives_largest_balances() {
    // The wide intermediates keep the computation exact at the extremes.
    let pool = PoolState { total_deposits: u64::MAX, total_borrows: u64::MAX };
    assert_eq!(compute_interest_rate(&pool), Ok(10000));
    let pool = PoolState { total_deposits: u64::MAX, total_borrows: u64::MAX / 2 };
    assert_eq!(compute_interest_rate(&pool), Ok(4999));
}
