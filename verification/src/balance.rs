//! The balance ledger: a mapping from owners to non-negative amounts, stored
//! as an association list with unique owners.  An absent entry stands for a
//! balance of zero.  Every access renews the touched entry's eviction horizon.

use vstd::prelude::*;
use crate::contract::TokenError;
use crate::models::Address;
use crate::storage_types::{BALANCE_BUMP_AMOUNT, BALANCE_LIFETIME_THRESHOLD};

verus! {

/// One persistent balance entry: the owner, the amount held, and the ledger
/// sequence up to which the entry is safe from eviction.
#[derive(Clone, Copy, PartialEq, Eq, Structural, Debug)]
pub struct BalanceEntry {
    pub owner: Address,
    pub amount: i128,
    pub live_until: u32,
}

/// No owner appears twice in the ledger.
pub open spec fn owners_unique(s: Seq<BalanceEntry>) -> bool {
    forall|i: int, j: int|
        0 <= i < j < s.len() ==> (#[trigger] s[i]).owner != (#[trigger] s[j]).owner
}

/// Every stored amount is non-negative.
pub open spec fn all_nonnegative(s: Seq<BalanceEntry>) -> bool {
    forall|i: int| 0 <= i < s.len() ==> (#[trigger] s[i]).amount >= 0
}

/// Well-formedness of the balance ledger.
pub open spec fn balances_wf(s: Seq<BalanceEntry>) -> bool {
    owners_unique(s) && all_nonnegative(s)
}

/// The index of the owner's entry, or -1 when the owner has none.
pub open spec fn index_of_owner(s: Seq<BalanceEntry>, owner: Address) -> int
    decreases s.len(),
{
    if s.len() == 0 {
        -1
    } else if s.last().owner == owner {
        s.len() - 1
    } else {
        index_of_owner(s.drop_last(), owner)
    }
}

/// The balance of an owner: the stored amount, or zero for an absent entry.
pub open spec fn bal_of(s: Seq<BalanceEntry>, owner: Address) -> int
    decreases s.len(),
{
    if s.len() == 0 {
        0
    } else if s.last().owner == owner {
        s.last().amount as int
    } else {
        bal_of(s.drop_last(), owner)
    }
}

/// The sum of all stored amounts.
pub open spec fn sum_of(s: Seq<BalanceEntry>) -> int
    decreases s.len(),
{
    if s.len() == 0 {
        0
    } else {
        sum_of(s.drop_last()) + s.last().amount
    }
}

/// The renewal rule of the lifetime-managed store: a horizon nearer than the
/// threshold is extended to the bump amount past the current sequence.
pub open spec fn bumped_live(live_until: u32, seq: u32) -> u32 {
    if live_until < seq + BALANCE_LIFETIME_THRESHOLD {
        (seq + BALANCE_BUMP_AMOUNT) as u32
    } else {
        live_until
    }
}

/// The ledger after adding `delta` to an owner's balance, creating the entry
/// if absent, with the touched entry's horizon renewed.
pub open spec fn spec_adjust(s: Seq<BalanceEntry>, owner: Address, delta: int, seq: u32) -> Seq<
    BalanceEntry,
> {
    let i = index_of_owner(s, owner);
    if i >= 0 {
        s.update(
            i,
            BalanceEntry {
                owner,
                amount: (s[i].amount + delta) as i128,
                live_until: bumped_live(s[i].live_until, seq),
            },
        )
    } else {
        s.push(
            BalanceEntry {
                owner,
                amount: delta as i128,
                live_until: (seq + BALANCE_BUMP_AMOUNT) as u32,
            },
        )
    }
}

/// The ledger after a credit.
pub open spec fn spec_credit(s: Seq<BalanceEntry>, owner: Address, amount: int, seq: u32) -> Seq<
    BalanceEntry,
> {
    spec_adjust(s, owner, amount, seq)
}

/// The ledger after a debit.
pub open spec fn spec_debit(s: Seq<BalanceEntry>, owner: Address, amount: int, seq: u32) -> Seq<
    BalanceEntry,
> {
    spec_adjust(s, owner, -amount, seq)
}

/// The ledger after a read: unchanged but for the renewed horizon of the
/// owner's entry, when one exists.
pub open spec fn spec_touch(s: Seq<BalanceEntry>, owner: Address, seq: u32) -> Seq<BalanceEntry> {
    let i = index_of_owner(s, owner);
    if i >= 0 {
        s.update(
            i,
            BalanceEntry {
                owner,
                amount: s[i].amount,
                live_until: bumped_live(s[i].live_until, seq),
            },
        )
    } else {
        s
    }
}

/// `index_of_owner` finds the owner's entry exactly when one exists, and
/// `bal_of` reads that entry's amount.
pub proof fn lemma_index_props(s: Seq<BalanceEntry>, owner: Address)
    ensures
        index_of_owner(s, owner) < 0 ==> bal_of(s, owner) == 0,
        index_of_owner(s, owner) < 0 ==> (forall|j: int|
            0 <= j < s.len() ==> (#[trigger] s[j]).owner != owner),
        index_of_owner(s, owner) >= 0 ==> 0 <= index_of_owner(s, owner) < s.len()
            && s[index_of_owner(s, owner)].owner == owner
            && bal_of(s, owner) == s[index_of_owner(s, owner)].amount as int,
    decreases s.len(),
{
    if s.len() == 0 {
    } else if s.last().owner == owner {
    } else {
        lemma_index_props(s.drop_last(), owner);
        if index_of_owner(s, owner) < 0 {
            assert forall|j: int| 0 <= j < s.len() implies (#[trigger] s[j]).owner != owner by {
                if j < s.len() - 1 {
                    assert(s.drop_last()[j] == s[j]);
                }
            }
        } else {
            let i = index_of_owner(s, owner);
            assert(s.drop_last()[i] == s[i]);
        }
    }
}

/// Uniqueness survives dropping the last entry.
pub proof fn lemma_unique_drop_last(s: Seq<BalanceEntry>)
    requires
        owners_unique(s),
        s.len() > 0,
    ensures
        owners_unique(s.drop_last()),
{
    assert forall|i: int, j: int|
        0 <= i < j < s.drop_last().len() implies (#[trigger] s.drop_last()[i]).owner != (
    #[trigger] s.drop_last()[j]).owner by {
        assert(s.drop_last()[i] == s[i]);
        assert(s.drop_last()[j] == s[j]);
    }
}

/// In a ledger with unique owners, `index_of_owner` returns the index of any
/// entry that carries the owner.
pub proof fn lemma_index_of_present(s: Seq<BalanceEntry>, i: int)
    requires
        owners_unique(s),
        0 <= i < s.len(),
    ensures
        index_of_owner(s, s[i].owner) == i,
    decreases s.len(),
{
    let owner = s[i].owner;
    if s.last().owner == owner {
        if i < s.len() - 1 {
            assert(s[i].owner != s[s.len() - 1].owner);
        }
    } else {
        lemma_unique_drop_last(s);
        assert(s.drop_last()[i] == s[i]);
        lemma_index_of_present(s.drop_last(), i);
    }
}

/// Updating one entry changes the sum by the difference of the amounts.
pub proof fn lemma_sum_update(s: Seq<BalanceEntry>, i: int, e: BalanceEntry)
    requires
        0 <= i < s.len(),
    ensures
        sum_of(s.update(i, e)) == sum_of(s) - s[i].amount + e.amount,
    decreases s.len(),
{
    let t = s.update(i, e);
    if i == s.len() - 1 {
        assert(t.drop_last() =~= s.drop_last());
        assert(t.last() == e);
    } else {
        assert(t.last() == s.last());
        assert(t.drop_last() =~= s.drop_last().update(i, e));
        assert(s.drop_last()[i] == s[i]);
        lemma_sum_update(s.drop_last(), i, e);
    }
}

/// Appending an entry adds its amount to the sum.
pub proof fn lemma_sum_push(s: Seq<BalanceEntry>, e: BalanceEntry)
    ensures
        sum_of(s.push(e)) == sum_of(s) + e.amount,
{
    assert(s.push(e).drop_last() =~= s);
    assert(s.push(e).last() == e);
}

/// Overwriting an owner's entry in place rewrites that owner's balance and
/// leaves every other balance unchanged.
pub proof fn lemma_bal_update(s: Seq<BalanceEntry>, i: int, e: BalanceEntry, o: Address)
    requires
        owners_unique(s),
        0 <= i < s.len(),
        e.owner == s[i].owner,
    ensures
        bal_of(s.update(i, e), o) == if o == e.owner {
            e.amount as int
        } else {
            bal_of(s, o)
        },
    decreases s.len(),
{
    let t = s.update(i, e);
    if i == s.len() - 1 {
        assert(t.last() == e);
        assert(t.drop_last() =~= s.drop_last());
    } else {
        assert(t.last() == s.last());
        assert(t.drop_last() =~= s.drop_last().update(i, e));
        assert(s.drop_last()[i] == s[i]);
        lemma_unique_drop_last(s);
        lemma_bal_update(s.drop_last(), i, e, o);
        if s.last().owner == o {
            assert(s[i].owner != s[s.len() - 1].owner);
        }
    }
}

/// Appending an entry for a fresh owner sets that owner's balance and leaves
/// every other balance unchanged.
pub proof fn lemma_bal_push(s: Seq<BalanceEntry>, e: BalanceEntry, o: Address)
    ensures
        bal_of(s.push(e), o) == if o == e.owner {
            e.amount as int
        } else {
            bal_of(s, o)
        },
{
    assert(s.push(e).last() == e);
    assert(s.push(e).drop_last() =~= s);
}

/// Uniqueness survives overwriting an entry with one for the same owner.
pub proof fn lemma_unique_update(s: Seq<BalanceEntry>, i: int, e: BalanceEntry)
    requires
        owners_unique(s),
        0 <= i < s.len(),
        e.owner == s[i].owner,
    ensures
        owners_unique(s.update(i, e)),
{
    let t = s.update(i, e);
    assert forall|a: int, b: int|
        0 <= a < b < t.len() implies (#[trigger] t[a]).owner != (#[trigger] t[b]).owner by {
        assert(s[a].owner != s[b].owner);
    }
}

/// Uniqueness survives appending an entry for an owner not yet present.
pub proof fn lemma_unique_push(s: Seq<BalanceEntry>, e: BalanceEntry)
    requires
        owners_unique(s),
        forall|j: int| 0 <= j < s.len() ==> (#[trigger] s[j]).owner != e.owner,
    ensures
        owners_unique(s.push(e)),
{
    let t = s.push(e);
    assert forall|a: int, b: int|
        0 <= a < b < t.len() implies (#[trigger] t[a]).owner != (#[trigger] t[b]).owner by {
        if b < s.len() {
            assert(s[a].owner != s[b].owner);
        } else {
            assert(s[a].owner != e.owner);
        }
    }
}

/// The effect of `spec_adjust` on well-formedness, the total, and every
/// individual balance.
pub proof fn lemma_spec_adjust(s: Seq<BalanceEntry>, owner: Address, delta: int, seq: u32)
    requires
        balances_wf(s),
        0 <= bal_of(s, owner) + delta <= i128::MAX,
    ensures
        balances_wf(spec_adjust(s, owner, delta, seq)),
        sum_of(spec_adjust(s, owner, delta, seq)) == sum_of(s) + delta,
        bal_of(spec_adjust(s, owner, delta, seq), owner) == bal_of(s, owner) + delta,
        forall|o: Address|
            o != owner ==> #[trigger] bal_of(spec_adjust(s, owner, delta, seq), o) == bal_of(s, o),
{
    lemma_index_props(s, owner);
    let i = index_of_owner(s, owner);
    let t = spec_adjust(s, owner, delta, seq);
    if i >= 0 {
        let e = BalanceEntry {
            owner,
            amount: (s[i].amount + delta) as i128,
            live_until: bumped_live(s[i].live_until, seq),
        };
        assert(e.amount as int == s[i].amount + delta);
        lemma_sum_update(s, i, e);
        lemma_unique_update(s, i, e);
        assert forall|o: Address| o != owner implies #[trigger] bal_of(t, o) == bal_of(s, o) by {
            lemma_bal_update(s, i, e, o);
        }
        lemma_bal_update(s, i, e, owner);
        assert forall|j: int| 0 <= j < t.len() implies (#[trigger] t[j]).amount >= 0 by {
            if j != i {
                assert(t[j] == s[j]);
            }
        }
    } else {
        let e = BalanceEntry {
            owner,
            amount: delta as i128,
            live_until: (seq + BALANCE_BUMP_AMOUNT) as u32,
        };
        assert(e.amount as int == delta);
        lemma_sum_push(s, e);
        lemma_unique_push(s, e);
        assert forall|o: Address| o != owner implies #[trigger] bal_of(t, o) == bal_of(s, o) by {
            lemma_bal_push(s, e, o);
        }
        lemma_bal_push(s, e, owner);
        assert forall|j: int| 0 <= j < t.len() implies (#[trigger] t[j]).amount >= 0 by {
            if j < s.len() {
                assert(t[j] == s[j]);
            }
        }
    }
}

/// A read leaves well-formedness, the total, and every balance unchanged.
pub proof fn lemma_spec_touch(s: Seq<BalanceEntry>, owner: Address, seq: u32)
    requires
        balances_wf(s),
    ensures
        balances_wf(spec_touch(s, owner, seq)),
        sum_of(spec_touch(s, owner, seq)) == sum_of(s),
        forall|o: Address| #[trigger] bal_of(spec_touch(s, owner, seq), o) == bal_of(s, o),
{
    lemma_index_props(s, owner);
    let i = index_of_owner(s, owner);
    let t = spec_touch(s, owner, seq);
    if i >= 0 {
        let e = BalanceEntry {
            owner,
            amount: s[i].amount,
            live_until: bumped_live(s[i].live_until, seq),
        };
        lemma_sum_update(s, i, e);
        lemma_unique_update(s, i, e);
        assert forall|o: Address| #[trigger] bal_of(t, o) == bal_of(s, o) by {
            lemma_bal_update(s, i, e, o);
            if o == owner {
                lemma_index_props(s, o);
            }
        }
        assert forall|j: int| 0 <= j < t.len() implies (#[trigger] t[j]).amount >= 0 by {
            if j != i {
                assert(t[j] == s[j]);
            }
        }
    }
}

/// Every balance of a well-formed ledger is non-negative.
pub proof fn lemma_bal_nonneg(s: Seq<BalanceEntry>, owner: Address)
    requires
        all_nonnegative(s),
    ensures
        bal_of(s, owner) >= 0,
    decreases s.len(),
{
    if s.len() == 0 {
    } else if s.last().owner == owner {
        assert(s[s.len() - 1].amount >= 0);
    } else {
        assert forall|j: int|
            0 <= j < s.drop_last().len() implies (#[trigger] s.drop_last()[j]).amount >= 0 by {
            assert(s.drop_last()[j] == s[j]);
        }
        lemma_bal_nonneg(s.drop_last(), owner);
    }
}

/// Finds the index of the owner's entry, scanning from the front; uniqueness
/// makes the result agree with `index_of_owner`.
fn find_balance(entries: &Vec<BalanceEntry>, owner: Address) -> (r: Option<usize>)
    ensures
        match r {
            Some(i) => i < entries@.len() && entries@[i as int].owner == owner,
            None => forall|j: int| 0 <= j < entries@.len() ==> (#[trigger] entries@[j]).owner != owner,
        },
{
    let mut i: usize = 0;
    while i < entries.len()
        invariant
            i <= entries@.len(),
            forall|j: int| 0 <= j < i ==> (#[trigger] entries@[j]).owner != owner,
        decreases entries@.len() - i,
    {
        if entries[i].owner == owner {
            return Some(i);
        }
        i = i + 1;
    }
    None
}

/// Reads an owner's balance, renewing the entry's eviction horizon when the
/// entry exists; an absent entry reads as zero and is not created.
pub fn read_balance(entries: &mut Vec<BalanceEntry>, owner: Address, seq: u32) -> (r: i128)
    requires
        balances_wf(old(entries)@),
        seq + BALANCE_BUMP_AMOUNT <= u32::MAX,
    ensures
        r as int == bal_of(old(entries)@, owner),
        final(entries)@ == spec_touch(old(entries)@, owner, seq),
        balances_wf(final(entries)@),
{
    let ghost s = entries@;
    proof {
        lemma_spec_touch(s, owner, seq);
        lemma_index_props(s, owner);
    }
    match find_balance(entries, owner) {
        Some(i) => {
            proof {
                lemma_index_of_present(s, i as int);
            }
            let amount = entries[i].amount;
            let old_live = entries[i].live_until;
            let new_live = if old_live < seq + BALANCE_LIFETIME_THRESHOLD {
                seq + BALANCE_BUMP_AMOUNT
            } else {
                old_live
            };
            entries.set(i, BalanceEntry { owner, amount, live_until: new_live });
            amount
        },
        None => 0,
    }
}

/// Credits an owner with a non-negative amount, creating the entry if absent.
pub fn receive_balance(entries: &mut Vec<BalanceEntry>, owner: Address, amount: i128, seq: u32)
    requires
        balances_wf(old(entries)@),
        amount >= 0,
        bal_of(old(entries)@, owner) + amount <= i128::MAX,
        seq + BALANCE_BUMP_AMOUNT <= u32::MAX,
    ensures
        final(entries)@ == spec_credit(old(entries)@, owner, amount as int, seq),
        balances_wf(final(entries)@),
        sum_of(final(entries)@) == sum_of(old(entries)@) + amount,
        bal_of(final(entries)@, owner) == bal_of(old(entries)@, owner) + amount,
        forall|o: Address|
            o != owner ==> #[trigger] bal_of(final(entries)@, o) == bal_of(old(entries)@, o),
{
    let ghost s = entries@;
    proof {
        lemma_index_props(s, owner);
        lemma_bal_nonneg(s, owner);
        lemma_spec_adjust(s, owner, amount as int, seq);
    }
    match find_balance(entries, owner) {
        Some(i) => {
            proof {
                lemma_index_of_present(s, i as int);
            }
            let cur = entries[i].amount;
            let old_live = entries[i].live_until;
            let new_live = if old_live < seq + BALANCE_LIFETIME_THRESHOLD {
                seq + BALANCE_BUMP_AMOUNT
            } else {
                old_live
            };
            entries.set(i, BalanceEntry { owner, amount: cur + amount, live_until: new_live });
        },
        None => {
            entries.push(
                BalanceEntry { owner, amount, live_until: seq + BALANCE_BUMP_AMOUNT },
            );
        },
    }
}

/// Debits a non-negative amount from an owner.  A balance below the requested
/// amount fails with `InsufficientBalance` and leaves the ledger unchanged; a
/// successful debit leaves a zero-valued entry rather than deleting it.
pub fn spend_balance(entries: &mut Vec<BalanceEntry>, owner: Address, amount: i128, seq: u32) -> (r:
    Result<(), TokenError>)
    requires
        balances_wf(old(entries)@),
        amount >= 0,
        seq + BALANCE_BUMP_AMOUNT <= u32::MAX,
    ensures
        r is Ok <==> bal_of(old(entries)@, owner) >= amount,
        r is Ok ==> final(entries)@ == spec_debit(old(entries)@, owner, amount as int, seq)
            && balances_wf(final(entries)@)
            && sum_of(final(entries)@) == sum_of(old(entries)@) - amount
            && bal_of(final(entries)@, owner) == bal_of(old(entries)@, owner) - amount
            && (forall|o: Address|
                o != owner ==> #[trigger] bal_of(final(entries)@, o) == bal_of(old(entries)@, o)),
        r is Err ==> final(entries)@ == old(entries)@
            && r == Err::<(), TokenError>(TokenError::InsufficientBalance),
{
    let ghost s = entries@;
    proof {
        lemma_index_props(s, owner);
        lemma_bal_nonneg(s, owner);
    }
    match find_balance(entries, owner) {
        Some(i) => {
            proof {
                lemma_index_of_present(s, i as int);
            }
            let cur = entries[i].amount;
            if cur < amount {
                return Err(TokenError::InsufficientBalance);
            }
            proof {
                lemma_spec_adjust(s, owner, -(amount as int), seq);
            }
            let old_live = entries[i].live_until;
            let new_live = if old_live < seq + BALANCE_LIFETIME_THRESHOLD {
                seq + BALANCE_BUMP_AMOUNT
            } else {
                old_live
            };
            entries.set(i, BalanceEntry { owner, amount: cur - amount, live_until: new_live });
            Ok(())
        },
        None => {
            if amount > 0 {
                return Err(TokenError::InsufficientBalance);
            }
            proof {
                lemma_spec_adjust(s, owner, -(amount as int), seq);
            }
            entries.push(BalanceEntry { owner, amount: 0, live_until: seq + BALANCE_BUMP_AMOUNT });
            Ok(())
        },
    }
}

} // verus!
