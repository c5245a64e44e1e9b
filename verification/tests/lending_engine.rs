use lending_pool::collateral::{calculate_required_collateral, NotionalEquivalence};
use lending_pool::engine::{borrow, deposit, unregister_depositor, BorrowEffects};
use lending_pool::errors::LendingPoolError;
use lending_pool::ledger::{initialize, PoolState};
use lending_pool::loan::LoanRecord;

#[test]
fn deposit_then_borrow_commits_ledger_loan_and_rate() {
    // Deposit 1000, borrow 500 against one-to-one collateral of 500:
    // utilization 5000 bps, so the linear model reports 5000 bps.
    let mut pool = initialize();
    assert_eq!(deposit(&mut pool, 1000), Ok(1000));

    let mut record = LoanRecord::new();
    let now: u64 = 1_700_000_000;
    let effects = borrow(&mut pool, &mut record, &NotionalEquivalence, 500, 500, now);
    assert_eq!(
        effects,
        Ok(BorrowEffects {
            collateral_to_transfer: 500,
            base_to_transfer: 500,
            new_rate: 5000,
        })
    );
    assert_eq!(pool, PoolState { total_deposits: 1000, total_borrows: 500 });
    assert_eq!(record.amount, 500);
    assert_eq!(record.expiration_time, now + 31_536_000);
}

#[test]
fn borrow_beyond_the_pool_fails_and_changes_nothing() {
    let mut pool = initialize();
    assert_eq!(deposit(&mut pool, 1000), Ok(1000));

    let mut record = LoanRecord::new();
    let r = borrow(&mut pool, &mut record, &NotionalEquivalence, 2000, 1500, 1_700_000_000);
    assert_eq!(r, Err(LendingPoolError::NotEnoughAvailableBorrows));
    assert_eq!(pool, PoolState { total_deposits: 1000, total_borrows: 0 });
    assert_eq!(record, LoanRecord::new());
}

#[test]
fn borrow_from_an_empty_pool_fails() {
    let mut pool = initialize();
    let mut record = LoanRecord::new();
    let r = borrow(&mut pool, &mut record, &NotionalEquivalence, 10, 1, 1_700_000_000);
    assert_eq!(r, Err(LendingPoolError::NotEnoughAvailableBorrows));
}

#[test]
fn borrow_without_enough_collateral_fails_and_changes_nothing() {
    let mut pool = initialize();
    assert_eq!(deposit(&mut pool, 1000), Ok(1000));

    let mut record = LoanRecord::new();
    let r = borrow(&mut pool, &mut record, &NotionalEquivalence, 499, 500, 1_700_000_000);
    assert_eq!(r, Err(LendingPoolError::InsufficientCollateral));
    assert_eq!(pool, PoolState { total_deposits: 1000, total_borrows: 0 });
    assert_eq!(record, LoanRecord::new());
}

#[test]
fn loan_record_overflow_aborts_the_borrow_atomically() {
    let mut pool = initialize();
    assert_eq!(deposit(&mut pool, 1000), Ok(1000));

    let mut record = LoanRecord { amount: u64::MAX, expiration_time: 42 };
    let r = borrow(&mut pool, &mut record, &NotionalEquivalence, 500, 500, 1_700_000_000);
    assert_eq!(r, Err(LendingPoolError::MathOverflow));
    assert_eq!(pool, PoolState { total_deposits: 1000, total_borrows: 0 });
    assert_eq!(record, LoanRecord { amount: u64::MAX, expiration_time: 42 });
}

#[test]
fn repeated_borrows_accumulate_on_one_record() {
    let mut pool = initialize();
    assert_eq!(deposit(&mut pool, 1000), Ok(1000));

    let mut record = LoanRecord::new();
    assert!(borrow(&mut pool, &mut record, &NotionalEquivalence, 300, 300, 1_000).is_ok());
    assert!(borrow(&mut pool, &mut record, &NotionalEquivalence, 200, 200, 2_000).is_ok());
    assert_eq!(pool.total_borrows, 500);
    assert_eq!(record.amount, 500);
    assert_eq!(record.expiration_time, 2_000 + 31_536_000);
}

#[test]
fn collateral_demanded_covers_the_amount_borrowed() {
    // The default sizing is one-to-one: a 100% overcollateralization
    // ratio, the least the policy contract admits.
    assert_eq!(calculate_required_collateral(123_456), Ok(123_456));
    assert_eq!(calculate_required_collateral(0), Ok(0));

    let mut pool = initialize();
    assert_eq!(deposit(&mut pool, 1000), Ok(1000));

    let mut record = LoanRecord::new();
    let effects = borrow(&mut pool, &mut record, &NotionalEquivalence, 750, 500, 1_700_000_000)
        .unwrap();
    assert!(effects.collateral_to_transfer >= effects.base_to_transfer);
    assert_eq!(effects.collateral_to_transfer, 500);
}

#[test]
fn deposit_overflow_fails_and_changes_nothing() {
    let mut pool = PoolState { total_deposits: u64::MAX, total_borrows: 0 };
    assert_eq!(deposit(&mut pool, 1), Err(LendingPoolError::MathOverflow));
    assert_eq!(pool, PoolState { total_deposits: u64::MAX, total_borrows: 0 });
}

#[test]
fn unregister_with_outstanding_claims_is_refused() {
    assert_eq!(unregister_depositor(10), Err(LendingPoolError::NonZeroBalance));
}

#[test]
fn unregister_with_a_zero_claim_balance_succeeds() {
    assert_eq!(unregister_depositor(0), Ok(()));
}
