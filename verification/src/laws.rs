//! Ledger-wide laws of the balance accounting.
//!
//! The contract's balance-moving operations — mint, transfer, burn — each
//! promise in their own contracts that a successful step rewrites the balance
//! ledger to `spec_credit`, `spec_credit` of `spec_debit`, or `spec_debit`
//! of the old ledger, and that a failed step changes nothing.  This module
//! states what follows for arbitrary sequences of such steps: the sum of all
//! balances moves by exactly the total minted less the total burned, and no
//! sequence of steps drives any balance below zero.

use vstd::prelude::*;
use crate::balance::{
    bal_of, balances_wf, lemma_bal_nonneg, lemma_index_props, lemma_spec_adjust, spec_credit,
    spec_debit, sum_of, BalanceEntry,
};
use crate::models::Address;

verus! {

/// One balance-moving operation, with the ledger sequence at which it runs.
/// A transfer is always a debit paired with a credit of the identical
/// amount; a mint is a credit with no matching debit; a burn is a debit with
/// no matching credit.  No other mutation path exists.
pub enum LedgerOp {
    Mint { to: Address, amount: i128, seq: u32 },
    Transfer { from: Address, to: Address, amount: i128, seq: u32 },
    Burn { from: Address, amount: i128, seq: u32 },
}

/// Whether the operation succeeds on the given ledger: the amount is
/// non-negative, a debit is covered by the balance it draws on, and a credit
/// stays within the amount type's range.  An operation that fails leaves the
/// ledger unchanged.
pub open spec fn op_allowed(s: Seq<BalanceEntry>, op: LedgerOp) -> bool {
    match op {
        LedgerOp::Mint { to, amount, seq } => amount >= 0 && bal_of(s, to) + amount <= i128::MAX,
        LedgerOp::Transfer { from, to, amount, seq } => amount >= 0 && bal_of(s, from) >= amount
            && (to == from || bal_of(s, to) + amount <= i128::MAX),
        LedgerOp::Burn { from, amount, seq } => amount >= 0 && bal_of(s, from) >= amount,
    }
}

/// The ledger after one operation: the rewriting each contract's `ensures`
/// promises on success, and the unchanged ledger on failure.
pub open spec fn apply_op(s: Seq<BalanceEntry>, op: LedgerOp) -> Seq<BalanceEntry> {
    if !op_allowed(s, op) {
        s
    } else {
        match op {
            LedgerOp::Mint { to, amount, seq } => spec_credit(s, to, amount as int, seq),
            LedgerOp::Transfer { from, to, amount, seq } => spec_credit(
                spec_debit(s, from, amount as int, seq),
                to,
                amount as int,
                seq,
            ),
            LedgerOp::Burn { from, amount, seq } => spec_debit(s, from, amount as int, seq),
        }
    }
}

/// What one operation adds to the total supply: the minted amount, the
/// negated burned amount, or zero for a transfer or a failed operation.
pub open spec fn op_net_minted(s: Seq<BalanceEntry>, op: LedgerOp) -> int {
    if !op_allowed(s, op) {
        0
    } else {
        match op {
            LedgerOp::Mint { to, amount, seq } => amount as int,
            LedgerOp::Transfer { from, to, amount, seq } => 0,
            LedgerOp::Burn { from, amount, seq } => -(amount as int),
        }
    }
}

/// The ledger after a sequence of operations, applied oldest first.
pub open spec fn apply_ops(s: Seq<BalanceEntry>, ops: Seq<LedgerOp>) -> Seq<BalanceEntry>
    decreases ops.len(),
{
    if ops.len() == 0 {
        s
    } else {
        apply_ops(apply_op(s, ops.first()), ops.drop_first())
    }
}

/// The total minted less the total burned over a sequence of operations.
pub open spec fn net_minted(s: Seq<BalanceEntry>, ops: Seq<LedgerOp>) -> int
    decreases ops.len(),
{
    if ops.len() == 0 {
        0
    } else {
        op_net_minted(s, ops.first()) + net_minted(apply_op(s, ops.first()), ops.drop_first())
    }
}

/// One operation preserves well-formedness and moves the total by exactly
/// its minted-less-burned amount.
pub proof fn lemma_apply_op(s: Seq<BalanceEntry>, op: LedgerOp)
    requires
        balances_wf(s),
    ensures
        balances_wf(apply_op(s, op)),
        sum_of(apply_op(s, op)) == sum_of(s) + op_net_minted(s, op),
{
    if op_allowed(s, op) {
        match op {
            LedgerOp::Mint { to, amount, seq } => {
                lemma_bal_nonneg(s, to);
                lemma_spec_adjust(s, to, amount as int, seq);
            },
            LedgerOp::Transfer { from, to, amount, seq } => {
                lemma_bal_nonneg(s, from);
                lemma_index_props(s, from);
                lemma_spec_adjust(s, from, -(amount as int), seq);
                let mid = spec_debit(s, from, amount as int, seq);
                lemma_bal_nonneg(mid, to);
                lemma_spec_adjust(mid, to, amount as int, seq);
            },
            LedgerOp::Burn { from, amount, seq } => {
                lemma_bal_nonneg(s, from);
                lemma_index_props(s, from);
                lemma_spec_adjust(s, from, -(amount as int), seq);
            },
        }
    }
}

/// Conservation: over any sequence of mint, transfer and burn operations,
/// the sum of all balances moves by exactly the total minted less the total
/// burned — and so, starting from an empty ledger, always equals it.
pub proof fn lemma_conservation(s: Seq<BalanceEntry>, ops: Seq<LedgerOp>)
    requires
        balances_wf(s),
    ensures
        balances_wf(apply_ops(s, ops)),
        sum_of(apply_ops(s, ops)) == sum_of(s) + net_minted(s, ops),
    decreases ops.len(),
{
    if ops.len() > 0 {
        lemma_apply_op(s, ops.first());
        lemma_conservation(apply_op(s, ops.first()), ops.drop_first());
    }
}

/// Non-negativity: no sequence of operations drives any balance below zero.
/// (A debit that is not covered fails and leaves every balance unchanged, by
/// the operations' own contracts.)
pub proof fn lemma_non_negativity(s: Seq<BalanceEntry>, ops: Seq<LedgerOp>, owner: Address)
    requires
        balances_wf(s),
    ensures
        bal_of(apply_ops(s, ops), owner) >= 0,
{
    lemma_conservation(s, ops);
    lemma_bal_nonneg(apply_ops(s, ops), owner);
}

} // verus!
