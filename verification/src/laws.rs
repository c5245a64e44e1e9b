use vstd::prelude::*;

use crate::ledger::{apply_op, op_allowed, LedgerOp, PoolState};

verus! {

/// Whether every operation in `ops` commits in turn, starting from
/// snapshot `s`: each step is allowed against the state the previous steps
/// produced.
pub open spec fn ops_allowed(s: PoolState, ops: Seq<LedgerOp>) -> bool
    decreases ops.len(),
{
    ops.len() == 0 || (op_allowed(s, ops[0]) && ops_allowed(
        apply_op(s, ops[0]),
        ops.subrange(1, ops.len() as int),
    ))
}

/// The ledger snapshot after the whole sequence `ops` commits against `s`.
pub open spec fn apply_ops(s: PoolState, ops: Seq<LedgerOp>) -> PoolState
    decreases ops.len(),
{
    if ops.len() == 0 {
        s
    } else {
        apply_ops(apply_op(s, ops[0]), ops.subrange(1, ops.len() as int))
    }
}

/// The sum of the amounts of the deposits in `ops`.
pub open spec fn sum_deposited(ops: Seq<LedgerOp>) -> int
    decreases ops.len(),
{
    if ops.len() == 0 {
        0
    } else {
        (match ops[0] {
            LedgerOp::Deposit(amount) => amount as int,
            LedgerOp::Borrow(_) => 0,
        }) + sum_deposited(ops.subrange(1, ops.len() as int))
    }
}

/// The sum of the amounts of the borrows in `ops`.
pub open spec fn sum_borrowed(ops: Seq<LedgerOp>) -> int
    decreases ops.len(),
{
    if ops.len() == 0 {
        0
    } else {
        (match ops[0] {
            LedgerOp::Deposit(_) => 0,
            LedgerOp::Borrow(amount) => amount as int,
        }) + sum_borrowed(ops.subrange(1, ops.len() as int))
    }
}

/// Invariant law: every ledger state reachable from a well-formed snapshot
/// through committed deposits and borrows — the only mutations there are —
/// is itself well-formed: `total_borrows <= total_deposits` throughout.
pub proof fn lemma_invariant_preserved(s: PoolState, ops: Seq<LedgerOp>)
    requires
        s.wf(),
        ops_allowed(s, ops),
    ensures
        apply_ops(s, ops).wf(),
    decreases ops.len(),
{
    if ops.len() > 0 {
        lemma_invariant_preserved(apply_op(s, ops[0]), ops.subrange(1, ops.len() as int));
    }
}

/// Conservation law: after any sequence of committed deposits and borrows,
/// the deposit counter equals its starting value plus the sum of the
/// deposited amounts, and the borrow counter equals its starting value
/// plus the sum of the borrowed amounts.
pub proof fn lemma_conservation(s: PoolState, ops: Seq<LedgerOp>)
    requires
        ops_allowed(s, ops),
    ensures
        apply_ops(s, ops).total_deposits == s.total_deposits + sum_deposited(ops),
        apply_ops(s, ops).total_borrows == s.total_borrows + sum_borrowed(ops),
    decreases ops.len(),
{
    if ops.len() > 0 {
        lemma_conservation(apply_op(s, ops[0]), ops.subrange(1, ops.len() as int));
    }
}

/// Conservation law from system initialization: starting from the zeroed
/// ledger, the counters equal exactly the sums of the committed deposit
/// and borrow amounts.
pub proof fn lemma_conservation_from_genesis(ops: Seq<LedgerOp>)
    requires
        ops_allowed(PoolState { total_deposits: 0, total_borrows: 0 }, ops),
    ensures
        apply_ops(PoolState { total_deposits: 0, total_borrows: 0 }, ops).total_deposits
            == sum_deposited(ops),
        apply_ops(PoolState { total_deposits: 0, total_borrows: 0 }, ops).total_borrows
            == sum_borrowed(ops),
{
    lemma_conservation(PoolState { total_deposits: 0, total_borrows: 0 }, ops);
}

} // verus!
