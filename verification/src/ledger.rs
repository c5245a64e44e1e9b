use vstd::prelude::*;

use crate::errors::LendingPoolError;
use crate::types::{DISCRIMINATOR, U64};

verus! {

/// The pool ledger: aggregate balances of the lending pool, and the single
/// source of truth for system-wide solvency.
///
/// There is one instance per deployment; every mutation goes through
/// [`PoolState::record_deposit`] or [`PoolState::record_borrow`], each of
/// which preserves the solvency invariant [`PoolState::wf`].
#[derive(Clone, Copy, Debug, PartialEq, Eq, Structural)]
pub struct PoolState {
    /// Cumulative base asset supplied to the pool, net of withdrawals.
    pub total_deposits: u64,
    /// Cumulative base asset currently lent out.
    pub total_borrows: u64,
}

/// A single ledger mutation, as the laws over operation sequences see it.
#[derive(Clone, Copy, Debug, PartialEq, Eq, Structural)]
pub enum LedgerOp {
    /// A committed deposit of the given base-asset amount.
    Deposit(u64),
    /// A committed borrow of the given base-asset amount.
    Borrow(u64),
}

/// Whether `op` can commit against snapshot `s`: a deposit must not
/// overflow the deposit counter, and a borrow must fit in the unborrowed
/// remainder.
pub open spec fn op_allowed(s: PoolState, op: LedgerOp) -> bool {
    match op {
        LedgerOp::Deposit(amount) => s.total_deposits + amount <= u64::MAX,
        LedgerOp::Borrow(amount) => amount <= s.spec_available(),
    }
}

/// The ledger snapshot after `op` commits against `s`.
pub open spec fn apply_op(s: PoolState, op: LedgerOp) -> PoolState {
    match op {
        LedgerOp::Deposit(amount) => PoolState {
            total_deposits: (s.total_deposits + amount) as u64,
            total_borrows: s.total_borrows,
        },
        LedgerOp::Borrow(amount) => PoolState {
            total_deposits: s.total_deposits,
            total_borrows: (s.total_borrows + amount) as u64,
        },
    }
}

impl PoolState {
    /// Solvency invariant: the pool never promises more base asset than it
    /// holds. Holds of every reachable ledger state.
    pub open spec fn wf(self) -> bool {
        self.total_borrows <= self.total_deposits
    }

    /// Unborrowed base asset still available to lend.
    pub open spec fn spec_available(self) -> int {
        self.total_deposits - self.total_borrows
    }

    /// Serialized size in bytes of the persisted pool account:
    /// discriminator plus the two 64-bit counters.
    pub fn len() -> (n: usize)
        ensures
            n == DISCRIMINATOR + U64 + U64,
    {
        DISCRIMINATOR + U64 + U64
    }

    /// Record a committed deposit: `total_deposits += amount`, checked.
    ///
    /// Fails with `MathOverflow` exactly when the counter would overflow,
    /// and then leaves the ledger unchanged.
    pub fn record_deposit(&mut self, amount: u64) -> (r: Result<(), LendingPoolError>)
        requires
            old(self).wf(),
        ensures
            final(self).wf(),
            op_allowed(*old(self), LedgerOp::Deposit(amount)) ==> {
                &&& r == Ok::<(), LendingPoolError>(())
                &&& *final(self) == apply_op(*old(self), LedgerOp::Deposit(amount))
            },
            !op_allowed(*old(self), LedgerOp::Deposit(amount)) ==> {
                &&& r == Err::<(), LendingPoolError>(LendingPoolError::MathOverflow)
                &&& *final(self) == *old(self)
            },
    {
        match self.total_deposits.checked_add(amount) {
            Some(new_total) => {
                self.total_deposits = new_total;
                Ok(())
            }
            None => Err(LendingPoolError::MathOverflow),
        }
    }

    /// Record a committed borrow: requires `amount` to fit in the available
    /// remainder, then `total_borrows += amount`.
    ///
    /// This is the single gate that keeps the pool from lending more than
    /// it holds: it fails with `NotEnoughAvailableBorrows` exactly when
    /// `amount` exceeds the available remainder, and then leaves the ledger
    /// unchanged. Under the solvency invariant the addition itself can
    /// never overflow.
    pub fn record_borrow(&mut self, amount: u64) -> (r: Result<(), LendingPoolError>)
        requires
            old(self).wf(),
        ensures
            final(self).wf(),
            op_allowed(*old(self), LedgerOp::Borrow(amount)) ==> {
                &&& r == Ok::<(), LendingPoolError>(())
                &&& *final(self) == apply_op(*old(self), LedgerOp::Borrow(amount))
            },
            !op_allowed(*old(self), LedgerOp::Borrow(amount)) ==> {
                &&& r == Err::<(), LendingPoolError>(LendingPoolError::NotEnoughAvailableBorrows)
                &&& *final(self) == *old(self)
            },
    {
        let available = calculate_available_borrows(self);
        if available >= amount {
            self.total_borrows = self.total_borrows + amount;
            Ok(())
        } else {
            Err(LendingPoolError::NotEnoughAvailableBorrows)
        }
    }
}

/// Create the pool ledger at system initialization, with both counters
/// zero.
pub fn initialize() -> (pool: PoolState)
    ensures
        pool.total_deposits == 0,
        pool.total_borrows == 0,
        pool.wf(),
{
    PoolState { total_deposits: 0, total_borrows: 0 }
}

/// Pure read of the unborrowed remainder, `total_deposits - total_borrows`;
/// never negative under the solvency invariant.
pub fn calculate_available_borrows(pool: &PoolState) -> (available: u64)
    requires
        pool.wf(),
    ensures
        available == pool.spec_available(),
{
    pool.total_deposits - pool.total_borrows
}

} // verus!
