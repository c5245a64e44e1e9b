use vstd::prelude::*;

use crate::errors::LendingPoolError;

verus! {

/// A pluggable collateral-sizing policy: given a requested borrow amount,
/// decide how much collateral the borrower must post.
///
/// The policy is deterministic and is consulted before any state changes;
/// the engine's contracts are stated over `spec_required`, so a deployment
/// chooses its overcollateralization rule by choosing the policy value it
/// hands to `borrow`. Every policy is bound by the coverage law
/// [`CollateralPolicy::spec_required_covers`]: whatever it demands is at
/// least the amount borrowed, an overcollateralization ratio of at least
/// 100%, so collateral always covers the debt a borrow creates.
pub trait CollateralPolicy: Sized {
    /// The collateral this policy demands for `amount`, or `None` where
    /// the demand cannot be expressed in the collateral asset's 64-bit
    /// units.
    spec fn spec_required(&self, amount: u64) -> Option<u64>;

    /// Coverage law, owed by every policy: a demand it can express is
    /// never below the amount borrowed.
    proof fn spec_required_covers(&self, amount: u64)
        ensures
            match self.spec_required(amount) {
                Some(required) => required >= amount,
                None => true,
            },
    ;

    /// Executable collateral sizing; agrees exactly with `spec_required`
    /// and reports `MathOverflow` where the demand is inexpressible.
    fn required_collateral(&self, amount: u64) -> (r: Result<u64, LendingPoolError>)
        ensures
            match self.spec_required(amount) {
                Some(c) => r == Ok::<u64, LendingPoolError>(c),
                None => r == Err::<u64, LendingPoolError>(LendingPoolError::MathOverflow),
            },
    ;
}

/// One-to-one notional sizing: the collateral demanded equals the amount
/// borrowed — the 100% ratio, the least the coverage law admits.
#[derive(Clone, Copy, Debug, PartialEq, Eq, Structural)]
pub struct NotionalEquivalence;

impl CollateralPolicy for NotionalEquivalence {
    open spec fn spec_required(&self, amount: u64) -> Option<u64> {
        Some(amount)
    }

    proof fn spec_required_covers(&self, amount: u64) {
    }

    fn required_collateral(&self, amount: u64) -> (r: Result<u64, LendingPoolError>) {
        calculate_required_collateral(amount)
    }
}

/// The default collateral computation: one-to-one notional equivalence.
/// The demand equals the amount requested and so covers it, at an
/// overcollateralization ratio of exactly 100%.
pub fn calculate_required_collateral(amount: u64) -> (r: Result<u64, LendingPoolError>)
    ensures
        r == Ok::<u64, LendingPoolError>(amount),
{
    Ok(amount)
}

} // verus!
