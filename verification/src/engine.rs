use vstd::prelude::*;

use crate::collateral::CollateralPolicy;
use crate::errors::LendingPoolError;
use crate::ledger::{apply_op, op_allowed, LedgerOp, PoolState};
use crate::loan::LoanRecord;
use crate::rate::interest_rate_bps;

verus! {

/// The fixed loan term: expiration is reset to one year after each borrow.
pub const ONE_YEAR_SECONDS: u64 = 365 * 24 * 60 * 60;

/// The external effects of a committed Borrow, for the host to apply as
/// one transaction together with the ledger and loan-record updates.
#[derive(Clone, Copy, Debug, PartialEq, Eq, Structural)]
pub struct BorrowEffects {
    /// Collateral to move from the borrower to the pool's collateral
    /// custody.
    pub collateral_to_transfer: u64,
    /// Base asset to move from the pool's custody to the borrower.
    pub base_to_transfer: u64,
    /// Interest rate, in basis points, to push to the rate-bearing mint
    /// configuration; computed on the post-commit ledger snapshot.
    pub new_rate: i16,
}

/// Decide an Unregister request: it succeeds exactly when the depositor's
/// claim balance is zero, and otherwise fails with `NonZeroBalance` so the
/// claim account stays open.
pub fn unregister_depositor(claim_balance: u64) -> (r: Result<(), LendingPoolError>)
    ensures
        claim_balance == 0 ==> r == Ok::<(), LendingPoolError>(()),
        claim_balance != 0 ==> r == Err::<(), LendingPoolError>(LendingPoolError::NonZeroBalance),
{
    if claim_balance == 0 {
        Ok(())
    } else {
        Err(LendingPoolError::NonZeroBalance)
    }
}

/// Commit a Deposit against the ledger and decide how much claim token to
/// mint: claims are minted one-to-one against the base asset supplied.
///
/// On success the deposit counter grows by `amount` and the result is the
/// claim amount to mint; on overflow the operation fails with
/// `MathOverflow` and the ledger is unchanged.
pub fn deposit(pool: &mut PoolState, amount: u64) -> (r: Result<u64, LendingPoolError>)
    requires
        old(pool).wf(),
    ensures
        final(pool).wf(),
        op_allowed(*old(pool), LedgerOp::Deposit(amount)) ==> {
            &&& r == Ok::<u64, LendingPoolError>(amount)
            &&& *final(pool) == apply_op(*old(pool), LedgerOp::Deposit(amount))
        },
        !op_allowed(*old(pool), LedgerOp::Deposit(amount)) ==> {
            &&& r == Err::<u64, LendingPoolError>(LendingPoolError::MathOverflow)
            &&& *final(pool) == *old(pool)
        },
{
    match pool.record_deposit(amount) {
        Ok(()) => Ok(amount),
        Err(e) => Err(e),
    }
}

/// Commit a Borrow: gate on pool availability, size and gate on the
/// borrower's collateral, accrue the loan, update the ledger, and compute
/// the rate to push — or fail with exactly one error and no state change.
///
/// The checks run in a fixed, auditable order against the pre-operation
/// snapshot: availability first (`NotEnoughAvailableBorrows`), then the
/// collateral policy (its own failure), then the borrower's collateral
/// balance (`InsufficientCollateral`), then the loan-record arithmetic
/// (`MathOverflow`). Any failure leaves both the ledger and the loan
/// record exactly as they were; on success all updates commit together,
/// the returned effects are the only external movements to apply, and the
/// collateral moved covers the amount lent out.
pub fn borrow<Policy: CollateralPolicy>(
    pool: &mut PoolState,
    loan_record: &mut LoanRecord,
    policy: &Policy,
    collateral_balance: u64,
    amount: u64,
    now: u64,
) -> (r: Result<BorrowEffects, LendingPoolError>)
    requires
        old(pool).wf(),
    ensures
        final(pool).wf(),
        r is Err ==> *final(pool) == *old(pool) && *final(loan_record) == *old(loan_record),
        r is Ok ==> r->Ok_0.collateral_to_transfer >= amount,
        amount > old(pool).spec_available() ==> r == Err::<BorrowEffects, LendingPoolError>(
            LendingPoolError::NotEnoughAvailableBorrows,
        ),
        amount <= old(pool).spec_available() ==> match policy.spec_required(amount) {
            None => r == Err::<BorrowEffects, LendingPoolError>(LendingPoolError::MathOverflow),
            Some(required) => {
                &&& collateral_balance < required ==> r == Err::<
                    BorrowEffects,
                    LendingPoolError,
                >(LendingPoolError::InsufficientCollateral)
                &&& collateral_balance >= required ==> {
                    if old(loan_record).amount + amount > u64::MAX || now + ONE_YEAR_SECONDS
                        > u64::MAX {
                        r == Err::<BorrowEffects, LendingPoolError>(LendingPoolError::MathOverflow)
                    } else {
                        &&& r is Ok
                        &&& r->Ok_0.collateral_to_transfer == required
                        &&& r->Ok_0.base_to_transfer == amount
                        &&& *final(pool) == apply_op(*old(pool), LedgerOp::Borrow(amount))
                        &&& r->Ok_0.new_rate == interest_rate_bps(
                            final(pool).total_deposits,
                            final(pool).total_borrows,
                        )
                        &&& final(loan_record).amount == old(loan_record).amount + amount
                        &&& final(loan_record).expiration_time == now + ONE_YEAR_SECONDS
                    }
                }
            },
        },
{
    // (1) Solvency gate, against the pre-operation snapshot.
    let available = crate::ledger::calculate_available_borrows(pool);
    if available < amount {
        return Err(LendingPoolError::NotEnoughAvailableBorrows);
    }

    // (2) Size the collateral demand; the policy's coverage law makes it
    // at least the amount borrowed.
    let required_collateral = policy.required_collateral(amount)?;
    proof {
        policy.spec_required_covers(amount);
    }

    // (3) Collateral gate, against the borrower's balance.
    if collateral_balance < required_collateral {
        return Err(LendingPoolError::InsufficientCollateral);
    }

    // (4) Accrue the loan record: both of its checked sums must succeed
    // before anything commits, so a failure here leaves no partial state.
    match loan_record.accrue(amount, ONE_YEAR_SECONDS, now) {
        Ok(()) => {}
        Err(e) => {
            return Err(e);
        }
    }

    // (5) Commit the ledger update; the solvency gate above makes this
    // infallible.
    match pool.record_borrow(amount) {
        Ok(()) => {}
        Err(e) => {
            return Err(e);
        }
    }

    // (6) Recompute the rate on the post-commit snapshot; the wide
    // intermediates make this infallible.
    let new_rate = crate::rate::compute_interest_rate(pool)?;

    Ok(
        BorrowEffects {
            collateral_to_transfer: required_collateral,
            base_to_transfer: amount,
            new_rate,
        },
    )
}

} // verus!
