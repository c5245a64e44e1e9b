use vstd::prelude::*;

verus! {

/// The failure kinds of the lending core.
///
/// Every operation either commits in full or reports exactly one of these
/// and leaves all state unchanged; no error is caught and retried
/// internally.
#[derive(Clone, Copy, Debug, PartialEq, Eq, Structural)]
pub enum LendingPoolError {
    /// A supplied well-known account did not match the expected derived
    /// identity.
    InvalidPoolPDA,
    /// Unregister was attempted while the depositor's claim balance is
    /// outstanding.
    NonZeroBalance,
    /// A checked arithmetic step exceeded its range.
    MathOverflow,
    /// The pool does not hold enough unborrowed base asset.
    NotEnoughAvailableBorrows,
    /// The borrower's collateral balance does not cover the required
    /// collateral.
    InsufficientCollateral,
    /// A loan record was created where one already exists.
    LoanRecordAlreadyExists,
}

} // verus!
