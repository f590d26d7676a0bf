//! The allowance ledger: a mapping from (owner, spender) pairs to an amount
//! and an expiration sequence.  Expiration is lazy: nothing is ever swept, but
//! every read and every spend recomputes the effective amount, which is zero
//! once the current sequence is past the stored expiration.
//!
//! Unlike balance entries, allowance entries carry no eviction horizon of
//! their own: they live in the short-retention tier of the store, whose
//! eviction of an entry is indistinguishable from the entry reading as zero —
//! which is also what expiration makes of it — so no renewal discipline is
//! owed here.

use vstd::prelude::*;
use crate::contract::TokenError;
use crate::models::Address;
use crate::storage_types::{AllowanceDataKey, AllowanceValue};

verus! {

/// One stored allowance: the (owner, spender) key and the stored value.
#[derive(Clone, Copy, PartialEq, Eq, Structural, Debug)]
pub struct AllowanceEntry {
    pub key: AllowanceDataKey,
    pub value: AllowanceValue,
}

/// No (owner, spender) pair appears twice in the ledger.
pub open spec fn keys_unique(s: Seq<AllowanceEntry>) -> bool {
    forall|i: int, j: int|
        0 <= i < j < s.len() ==> (#[trigger] s[i]).key != (#[trigger] s[j]).key
}

/// Every stored amount is non-negative.
pub open spec fn amounts_nonneg(s: Seq<AllowanceEntry>) -> bool {
    forall|i: int| 0 <= i < s.len() ==> (#[trigger] s[i]).value.amount >= 0
}

/// Well-formedness of the allowance ledger.
pub open spec fn allowances_wf(s: Seq<AllowanceEntry>) -> bool {
    keys_unique(s) && amounts_nonneg(s)
}

/// The index of the key's entry, or -1 when the key has none.
pub open spec fn index_of_key(s: Seq<AllowanceEntry>, k: AllowanceDataKey) -> int
    decreases s.len(),
{
    if s.len() == 0 {
        -1
    } else if s.last().key == k {
        s.len() - 1
    } else {
        index_of_key(s.drop_last(), k)
    }
}

/// The stored value under a key; an absent entry stands for a zero amount
/// with a zero expiration.
pub open spec fn stored_value(s: Seq<AllowanceEntry>, k: AllowanceDataKey) -> AllowanceValue
    decreases s.len(),
{
    if s.len() == 0 {
        AllowanceValue { amount: 0, expiration_ledger: 0 }
    } else if s.last().key == k {
        s.last().value
    } else {
        stored_value(s.drop_last(), k)
    }
}

/// The effective amount of a stored value at the current sequence: zero once
/// the sequence is past the expiration, the stored amount otherwise.
pub open spec fn effective(v: AllowanceValue, seq: u32) -> int {
    if v.expiration_ledger < seq {
        0
    } else {
        v.amount as int
    }
}

/// The spendable amount under a key at the current sequence.
pub open spec fn effective_allowance(s: Seq<AllowanceEntry>, k: AllowanceDataKey, seq: u32) -> int {
    effective(stored_value(s, k), seq)
}

/// The ledger after an unconditional overwrite of the key's entry, creating
/// it if absent.
pub open spec fn spec_put(s: Seq<AllowanceEntry>, k: AllowanceDataKey, v: AllowanceValue) -> Seq<
    AllowanceEntry,
> {
    let i = index_of_key(s, k);
    if i >= 0 {
        s.update(i, AllowanceEntry { key: k, value: v })
    } else {
        s.push(AllowanceEntry { key: k, value: v })
    }
}

/// The ledger after a spend: the effective amount is reduced by the spent
/// amount and the stored expiration is preserved.  A spend of zero rewrites
/// nothing.
pub open spec fn spec_spend(s: Seq<AllowanceEntry>, k: AllowanceDataKey, amount: int, seq: u32) -> Seq<
    AllowanceEntry,
> {
    if amount > 0 {
        spec_put(
            s,
            k,
            AllowanceValue {
                amount: (effective_allowance(s, k, seq) - amount) as i128,
                expiration_ledger: stored_value(s, k).expiration_ledger,
            },
        )
    } else {
        s
    }
}

/// `index_of_key` finds the key's entry exactly when one exists, and
/// `stored_value` reads that entry's value.
pub proof fn lemma_key_index_props(s: Seq<AllowanceEntry>, k: AllowanceDataKey)
    ensures
        index_of_key(s, k) < 0 ==> stored_value(s, k) == (AllowanceValue {
            amount: 0,
            expiration_ledger: 0,
        }),
        index_of_key(s, k) < 0 ==> (forall|j: int|
            0 <= j < s.len() ==> (#[trigger] s[j]).key != k),
        index_of_key(s, k) >= 0 ==> 0 <= index_of_key(s, k) < s.len()
            && s[index_of_key(s, k)].key == k
            && stored_value(s, k) == s[index_of_key(s, k)].value,
    decreases s.len(),
{
    if s.len() == 0 {
    } else if s.last().key == k {
    } else {
        lemma_key_index_props(s.drop_last(), k);
        if index_of_key(s, k) < 0 {
            assert forall|j: int| 0 <= j < s.len() implies (#[trigger] s[j]).key != k by {
                if j < s.len() - 1 {
                    assert(s.drop_last()[j] == s[j]);
                }
            }
        } else {
            let i = index_of_key(s, k);
            assert(s.drop_last()[i] == s[i]);
        }
    }
}

/// Uniqueness survives dropping the last entry.
pub proof fn lemma_keys_unique_drop_last(s: Seq<AllowanceEntry>)
    requires
        keys_unique(s),
        s.len() > 0,
    ensures
        keys_unique(s.drop_last()),
{
    assert forall|i: int, j: int|
        0 <= i < j < s.drop_last().len() implies (#[trigger] s.drop_last()[i]).key != (
    #[trigger] s.drop_last()[j]).key by {
        assert(s.drop_last()[i] == s[i]);
        assert(s.drop_last()[j] == s[j]);
    }
}

/// In a ledger with unique keys, `index_of_key` returns the index of any
/// entry that carries the key.
pub proof fn lemma_key_index_of_present(s: Seq<AllowanceEntry>, i: int)
    requires
        keys_unique(s),
        0 <= i < s.len(),
    ensures
        index_of_key(s, s[i].key) == i,
    decreases s.len(),
{
    let k = s[i].key;
    if s.last().key == k {
        if i < s.len() - 1 {
            assert(s[i].key != s[s.len() - 1].key);
        }
    } else {
        lemma_keys_unique_drop_last(s);
        assert(s.drop_last()[i] == s[i]);
        lemma_key_index_of_present(s.drop_last(), i);
    }
}

/// Overwriting a key's entry in place rewrites that key's stored value and
/// leaves every other key's value unchanged.
pub proof fn lemma_stored_update(
    s: Seq<AllowanceEntry>,
    i: int,
    e: AllowanceEntry,
    k: AllowanceDataKey,
)
    requires
        keys_unique(s),
        0 <= i < s.len(),
        e.key == s[i].key,
    ensures
        stored_value(s.update(i, e), k) == if k == e.key {
            e.value
        } else {
            stored_value(s, k)
        },
    decreases s.len(),
{
    let t = s.update(i, e);
    if i == s.len() - 1 {
        assert(t.last() == e);
        assert(t.drop_last() =~= s.drop_last());
    } else {
        assert(t.last() == s.last());
        assert(t.drop_last() =~= s.drop_last().update(i, e));
        assert(s.drop_last()[i] == s[i]);
        lemma_keys_unique_drop_last(s);
        lemma_stored_update(s.drop_last(), i, e, k);
        if s.last().key == k {
            assert(s[i].key != s[s.len() - 1].key);
        }
    }
}

/// Appending an entry for a fresh key sets that key's stored value and leaves
/// every other key's value unchanged.
pub proof fn lemma_stored_push(s: Seq<AllowanceEntry>, e: AllowanceEntry, k: AllowanceDataKey)
    ensures
        stored_value(s.push(e), k) == if k == e.key {
            e.value
        } else {
            stored_value(s, k)
        },
{
    assert(s.push(e).last() == e);
    assert(s.push(e).drop_last() =~= s);
}

/// The effect of an overwrite on well-formedness and on every stored value.
pub proof fn lemma_spec_put(s: Seq<AllowanceEntry>, k: AllowanceDataKey, v: AllowanceValue)
    requires
        allowances_wf(s),
        v.amount >= 0,
    ensures
        allowances_wf(spec_put(s, k, v)),
        stored_value(spec_put(s, k, v), k) == v,
        forall|k2: AllowanceDataKey|
            k2 != k ==> #[trigger] stored_value(spec_put(s, k, v), k2) == stored_value(s, k2),
{
    lemma_key_index_props(s, k);
    let i = index_of_key(s, k);
    let t = spec_put(s, k, v);
    let e = AllowanceEntry { key: k, value: v };
    if i >= 0 {
        assert forall|k2: AllowanceDataKey|
            k2 != k implies #[trigger] stored_value(t, k2) == stored_value(s, k2) by {
            lemma_stored_update(s, i, e, k2);
        }
        lemma_stored_update(s, i, e, k);
        assert forall|a: int, b: int|
            0 <= a < b < t.len() implies (#[trigger] t[a]).key != (#[trigger] t[b]).key by {
            assert(s[a].key != s[b].key);
        }
        assert forall|j: int| 0 <= j < t.len() implies (#[trigger] t[j]).value.amount >= 0 by {
            if j != i {
                assert(t[j] == s[j]);
            }
        }
    } else {
        assert forall|k2: AllowanceDataKey|
            k2 != k implies #[trigger] stored_value(t, k2) == stored_value(s, k2) by {
            lemma_stored_push(s, e, k2);
        }
        lemma_stored_push(s, e, k);
        assert forall|a: int, b: int|
            0 <= a < b < t.len() implies (#[trigger] t[a]).key != (#[trigger] t[b]).key by {
            if b < s.len() {
                assert(s[a].key != s[b].key);
            } else {
                assert(s[a].key != k);
            }
        }
        assert forall|j: int| 0 <= j < t.len() implies (#[trigger] t[j]).value.amount >= 0 by {
            if j < s.len() {
                assert(t[j] == s[j]);
            }
        }
    }
}

/// Finds the index of the key's entry.
fn find_allowance(entries: &Vec<AllowanceEntry>, key: AllowanceDataKey) -> (r: Option<usize>)
    ensures
        match r {
            Some(i) => i < entries@.len() && entries@[i as int].key == key,
            None => forall|j: int| 0 <= j < entries@.len() ==> (#[trigger] entries@[j]).key != key,
        },
{
    let mut i: usize = 0;
    while i < entries.len()
        invariant
            i <= entries@.len(),
            forall|j: int| 0 <= j < i ==> (#[trigger] entries@[j]).key != key,
        decreases entries@.len() - i,
    {
        if entries[i].key.from == key.from && entries[i].key.spender == key.spender {
            return Some(i);
        }
        i = i + 1;
    }
    None
}

/// Reads the allowance granted by `from` to `spender`, applying the
/// expiration check: past the stored expiration the returned amount is zero,
/// whatever was persisted.
pub fn read_allowance(entries: &Vec<AllowanceEntry>, from: Address, spender: Address, seq: u32) -> (r:
    AllowanceValue)
    requires
        allowances_wf(entries@),
    ensures
        r.amount as int == effective_allowance(entries@, AllowanceDataKey { from, spender }, seq),
        r.expiration_ledger == stored_value(
            entries@,
            AllowanceDataKey { from, spender },
        ).expiration_ledger,
{
    let key = AllowanceDataKey { from, spender };
    proof {
        lemma_key_index_props(entries@, key);
    }
    match find_allowance(entries, key) {
        Some(i) => {
            proof {
                lemma_key_index_of_present(entries@, i as int);
            }
            let stored = entries[i].value;
            if stored.expiration_ledger < seq {
                AllowanceValue { amount: 0, expiration_ledger: stored.expiration_ledger }
            } else {
                stored
            }
        },
        None => AllowanceValue { amount: 0, expiration_ledger: 0 },
    }
}

/// Overwrites the allowance granted by `from` to `spender` unconditionally.
/// An expiration already in the past is accepted and stored; the entry is
/// then immediately inert.
pub fn write_allowance(
    entries: &mut Vec<AllowanceEntry>,
    from: Address,
    spender: Address,
    amount: i128,
    expiration_ledger: u32,
)
    requires
        allowances_wf(old(entries)@),
        amount >= 0,
    ensures
        final(entries)@ == spec_put(
            old(entries)@,
            AllowanceDataKey { from, spender },
            AllowanceValue { amount, expiration_ledger },
        ),
        allowances_wf(final(entries)@),
        stored_value(final(entries)@, AllowanceDataKey { from, spender }) == (AllowanceValue {
            amount,
            expiration_ledger,
        }),
        forall|k2: AllowanceDataKey|
            k2 != (AllowanceDataKey { from, spender }) ==> #[trigger] stored_value(
                final(entries)@,
                k2,
            ) == stored_value(old(entries)@, k2),
{
    let key = AllowanceDataKey { from, spender };
    let value = AllowanceValue { amount, expiration_ledger };
    let ghost s = entries@;
    proof {
        lemma_key_index_props(s, key);
        lemma_spec_put(s, key, value);
    }
    match find_allowance(entries, key) {
        Some(i) => {
            proof {
                lemma_key_index_of_present(s, i as int);
            }
            entries.set(i, AllowanceEntry { key, value });
        },
        None => {
            entries.push(AllowanceEntry { key, value });
        },
    }
}

/// Returns the raw stored entry under the key, ignoring expiration: a
/// diagnostic view of the persisted record.
pub fn get_stored_allowance(entries: &Vec<AllowanceEntry>, from: Address, spender: Address) -> (r:
    Option<AllowanceValue>)
    requires
        keys_unique(entries@),
    ensures
        index_of_key(entries@, AllowanceDataKey { from, spender }) >= 0 ==> r == Some(
            stored_value(entries@, AllowanceDataKey { from, spender }),
        ),
        index_of_key(entries@, AllowanceDataKey { from, spender }) < 0 ==> r
            == None::<AllowanceValue>,
{
    let key = AllowanceDataKey { from, spender };
    proof {
        lemma_key_index_props(entries@, key);
    }
    match find_allowance(entries, key) {
        Some(i) => {
            proof {
                lemma_key_index_of_present(entries@, i as int);
            }
            Some(entries[i].value)
        },
        None => None,
    }
}

/// Spends part of an allowance.  An effective amount below the requested
/// amount fails with `InsufficientAllowance` and leaves the ledger unchanged;
/// a successful spend decrements the amount and preserves the stored
/// expiration.
pub fn spend_allowance(
    entries: &mut Vec<AllowanceEntry>,
    from: Address,
    spender: Address,
    amount: i128,
    seq: u32,
) -> (r: Result<(), TokenError>)
    requires
        allowances_wf(old(entries)@),
        amount >= 0,
    ensures
        r is Ok <==> effective_allowance(old(entries)@, AllowanceDataKey { from, spender }, seq)
            >= amount,
        r is Ok ==> final(entries)@ == spec_spend(
            old(entries)@,
            AllowanceDataKey { from, spender },
            amount as int,
            seq,
        ) && allowances_wf(final(entries)@)
            && effective_allowance(final(entries)@, AllowanceDataKey { from, spender }, seq)
            == effective_allowance(old(entries)@, AllowanceDataKey { from, spender }, seq) - amount
            && (forall|k2: AllowanceDataKey|
            k2 != (AllowanceDataKey { from, spender }) ==> #[trigger] stored_value(
                final(entries)@,
                k2,
            ) == stored_value(old(entries)@, k2)),
        r is Err ==> final(entries)@ == old(entries)@
            && r == Err::<(), TokenError>(TokenError::InsufficientAllowance),
{
    let key = AllowanceDataKey { from, spender };
    let ghost s = entries@;
    let current = read_allowance(entries, from, spender, seq);
    if current.amount < amount {
        return Err(TokenError::InsufficientAllowance);
    }
    if amount > 0 {
        proof {
            lemma_spec_put(
                s,
                key,
                AllowanceValue {
                    amount: (current.amount - amount) as i128,
                    expiration_ledger: current.expiration_ledger,
                },
            );
        }
        write_allowance(entries, from, spender, current.amount - amount, current.expiration_ledger);
        proof {
            // A positive spend from a positive effective amount implies the
            // entry has not expired, so the rewritten amount stays effective.
            assert(stored_value(s, key).expiration_ledger >= seq);
        }
    }
    Ok(())
}

/// A spend followed immediately by a read yields the original effective
/// amount less the spent amount, for any spend within the effective amount
/// of an unexpired allowance.
pub proof fn lemma_spend_then_read(
    s: Seq<AllowanceEntry>,
    k: AllowanceDataKey,
    amount: int,
    seq: u32,
)
    requires
        allowances_wf(s),
        0 <= amount <= effective_allowance(s, k, seq),
    ensures
        effective_allowance(spec_spend(s, k, amount, seq), k, seq) == effective_allowance(s, k, seq)
            - amount,
        allowances_wf(spec_spend(s, k, amount, seq)),
{
    if amount > 0 {
        let v = AllowanceValue {
            amount: (effective_allowance(s, k, seq) - amount) as i128,
            expiration_ledger: stored_value(s, k).expiration_ledger,
        };
        assert(stored_value(s, k).expiration_ledger >= seq);
        lemma_spec_put(s, k, v);
    }
}

/// Once the current sequence is past the stored expiration, the allowance is
/// effectively zero, whatever amount was persisted.
pub proof fn lemma_expired_allowance_reads_zero(s: Seq<AllowanceEntry>, k: AllowanceDataKey, seq: u32)
    requires
        seq > stored_value(s, k).expiration_ledger,
    ensures
        effective_allowance(s, k, seq) == 0,
{
}

/// A fresh approval resets both the amount and the expiration, independently
/// of whatever was stored before — including an expired entry.
pub proof fn lemma_approve_overwrites_history(
    s: Seq<AllowanceEntry>,
    k: AllowanceDataKey,
    v: AllowanceValue,
    seq: u32,
)
    requires
        allowances_wf(s),
        v.amount >= 0,
    ensures
        stored_value(spec_put(s, k, v), k) == v,
        effective_allowance(spec_put(s, k, v), k, seq) == effective(v, seq),
{
    lemma_spec_put(s, k, v);
}

} // verus!
