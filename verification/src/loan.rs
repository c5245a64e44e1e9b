use vstd::prelude::*;

use crate::errors::LendingPoolError;
use crate::types::{DISCRIMINATOR, U64};

verus! {

/// A borrower's persisted loan record: outstanding principal and the time
/// after which the loan is considered due.
///
/// One record exists per borrower, created lazily with zero principal on
/// the first borrow and updated additively on each subsequent one.
#[derive(Clone, Copy, Debug, PartialEq, Eq, Structural)]
pub struct LoanRecord {
    /// Outstanding principal owed by this borrower.
    pub amount: u64,
    /// Absolute time (seconds since epoch) after which the loan is due.
    pub expiration_time: u64,
}

impl LoanRecord {
    /// Serialized size in bytes of the persisted loan account:
    /// discriminator plus the two 64-bit fields.
    pub fn len() -> (n: usize)
        ensures
            n == DISCRIMINATOR + U64 + U64,
    {
        DISCRIMINATOR + U64 + U64
    }

    /// The fresh, zeroed record a borrower starts from before their first
    /// borrow commits.
    pub fn new() -> (record: LoanRecord)
        ensures
            record.amount == 0,
            record.expiration_time == 0,
    {
        LoanRecord { amount: 0, expiration_time: 0 }
    }

    /// Accrue a committed borrow onto this record: principal grows by
    /// `amount` and the expiration is reset to `now + term_seconds`, both
    /// checked, committed together or not at all.
    ///
    /// Fails with `MathOverflow` exactly when either sum overflows, and
    /// then leaves the record unchanged.
    pub fn accrue(&mut self, amount: u64, term_seconds: u64, now: u64) -> (r: Result<
        (),
        LendingPoolError,
    >)
        ensures
            old(self).amount + amount <= u64::MAX && now + term_seconds <= u64::MAX ==> {
                &&& r == Ok::<(), LendingPoolError>(())
                &&& final(self).amount == old(self).amount + amount
                &&& final(self).expiration_time == now + term_seconds
            },
            old(self).amount + amount > u64::MAX || now + term_seconds > u64::MAX ==> {
                &&& r == Err::<(), LendingPoolError>(LendingPoolError::MathOverflow)
                &&& *final(self) == *old(self)
            },
    {
        let new_amount: u64 = match self.amount.checked_add(amount) {
            Some(v) => v,
            None => {
                return Err(LendingPoolError::MathOverflow);
            }
        };
        let new_expiration: u64 = match now.checked_add(term_seconds) {
            Some(v) => v,
            None => {
                return Err(LendingPoolError::MathOverflow);
            }
        };
        self.amount = new_amount;
        self.expiration_time = new_expiration;
        Ok(())
    }
}

} // verus!
