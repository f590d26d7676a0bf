//! Storage-facing types of the token contract: allowance keys and values, and
//! the lifetime-renewal constants of the lease discipline.
//!
//! Every entry of the persistent store carries an eviction horizon, expressed
//! as a ledger sequence number.  An operation that touches an entry must renew
//! that horizon whenever it has dropped below the lifetime threshold,
//! extending it by the bump amount; otherwise the entry risks eviction before
//! the next access.

use vstd::prelude::*;
use crate::models::Address;

pub use crate::models::WineLotMetadata;

verus! {

/// Ledger sequence numbers per day, the unit the renewal windows are set in.
pub const DAY_IN_LEDGERS: u32 = 17280;

/// Horizon an instance entry is extended to, relative to the current sequence.
pub const INSTANCE_BUMP_AMOUNT: u32 = 7 * DAY_IN_LEDGERS;

/// An instance entry whose horizon is nearer than this is renewed.
pub const INSTANCE_LIFETIME_THRESHOLD: u32 = INSTANCE_BUMP_AMOUNT - DAY_IN_LEDGERS;

/// Horizon a balance entry is extended to, relative to the current sequence.
pub const BALANCE_BUMP_AMOUNT: u32 = 30 * DAY_IN_LEDGERS;

/// A balance entry whose horizon is nearer than this is renewed.
pub const BALANCE_LIFETIME_THRESHOLD: u32 = BALANCE_BUMP_AMOUNT - DAY_IN_LEDGERS;

/// The renewal rule for a contract-instance entry: a horizon nearer than the
/// threshold is extended to the bump amount past the current sequence.
pub open spec fn bumped_instance(live_until: u32, seq: u32) -> u32 {
    if live_until < seq + INSTANCE_LIFETIME_THRESHOLD {
        (seq + INSTANCE_BUMP_AMOUNT) as u32
    } else {
        live_until
    }
}

/// Renews a contract-instance horizon per the renewal rule.
pub fn extend_instance_ttl(live_until: u32, seq: u32) -> (r: u32)
    requires
        seq + INSTANCE_BUMP_AMOUNT <= u32::MAX,
    ensures
        r == bumped_instance(live_until, seq),
{
    if live_until < seq + INSTANCE_LIFETIME_THRESHOLD {
        seq + INSTANCE_BUMP_AMOUNT
    } else {
        live_until
    }
}

/// The key of an allowance entry: who granted it and who may spend it.
#[derive(Clone, Copy, PartialEq, Eq, Structural, Debug)]
pub struct AllowanceDataKey {
    pub from: Address,
    pub spender: Address,
}

/// The stored value of an allowance: the remaining amount and the last ledger
/// sequence at which it may still be spent.
#[derive(Clone, Copy, PartialEq, Eq, Structural, Debug)]
pub struct AllowanceValue {
    pub amount: i128,
    pub expiration_ledger: u32,
}

} // verus!
