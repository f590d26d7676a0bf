//! The asset contract: an explicit state machine composing the balance and
//! allowance ledgers behind an authenticated public interface.
//!
//! Each operation is one atomic step: it either commits in full or reports a
//! business-rule failure and leaves the state exactly as it was.  The caller
//! that authorized the step is passed explicitly; operations gated on a
//! principal require the caller to equal it, mirroring an invocation that the
//! host would abort on an authentication failure.  Published events accumulate
//! in a log, and the lifetime of every storage entry an operation touches is
//! renewed as a side effect.

use vstd::prelude::*;
use crate::allowance::{
    allowances_wf, effective_allowance, get_stored_allowance, index_of_key, read_allowance,
    spec_put, spec_spend, spend_allowance, stored_value, write_allowance, AllowanceEntry,
};
use crate::balance::{
    bal_of, balances_wf, read_balance, receive_balance, spec_credit, spec_debit, spec_touch,
    spend_balance, sum_of, BalanceEntry,
};
use crate::metadata::{composed_name, composed_symbol, push_decimal, TokenMetadata};
use crate::models::{Address, MuxedAddress, WineLotMetadata};
use crate::storage_types::{
    bumped_instance, extend_instance_ttl, AllowanceDataKey, AllowanceValue, BALANCE_BUMP_AMOUNT,
    INSTANCE_BUMP_AMOUNT,
};
use crate::wine_lot_metadata::{get_wine_lot_metadata, set_wine_lot_metadata};

verus! {

/// The recoverable business-rule failures of the asset contract.  Callers
/// branch on these; authentication and precondition violations are excluded
/// by `requires` instead, mirroring an invocation that aborts outright.
#[derive(Clone, Copy, PartialEq, Eq, Structural, Debug)]
pub enum TokenError {
    InsufficientBalance,
    InsufficientAllowance,
}

/// Whether an amount is acceptable to the contract: every operation rejects
/// negative amounts outright.
pub fn check_nonnegative_amount(amount: i128) -> (r: bool)
    ensures
        r <==> amount >= 0,
{
    amount >= 0
}

/// The administrator was replaced; carries the old and the new principal.
#[derive(Clone, Copy, PartialEq, Eq, Structural, Debug)]
pub struct SetAdmin {
    pub admin: Address,
    pub new_admin: Address,
}

/// One entry of the contract's event log.
#[derive(Clone, Copy, PartialEq, Eq, Structural, Debug)]
pub enum TokenEvent {
    Mint { to: Address, amount: i128 },
    Approve { from: Address, spender: Address, amount: i128, expiration_ledger: u32 },
    Transfer { from: Address, to: Address, to_muxed_id: Option<u64>, amount: i128 },
    Burn { from: Address, amount: i128 },
    SetAdmin(SetAdmin),
}

/// The abstract state of a token instance, as the contracts speak of it.
pub struct TokenModel {
    pub admin: Address,
    pub decimal: u32,
    pub name: Seq<char>,
    pub symbol: Seq<char>,
    pub wine_lot: Option<WineLotMetadata>,
    pub balances: Seq<BalanceEntry>,
    pub allowances: Seq<AllowanceEntry>,
    pub instance_live_until: u32,
    pub events: Seq<TokenEvent>,
}

/// The fields an operation other than `set_admin` and construction never
/// touches.
pub open spec fn same_admin_and_metadata(pre: TokenModel, post: TokenModel) -> bool {
    &&& post.admin == pre.admin
    &&& post.decimal == pre.decimal
    &&& post.name == pre.name
    &&& post.symbol == pre.symbol
    &&& post.wine_lot == pre.wine_lot
}

/// A state change that only renews the instance horizon.
pub open spec fn only_instance_bumped(pre: TokenModel, post: TokenModel, seq: u32) -> bool {
    &&& same_admin_and_metadata(pre, post)
    &&& post.balances == pre.balances
    &&& post.allowances == pre.allowances
    &&& post.events == pre.events
    &&& post.instance_live_until == bumped_instance(pre.instance_live_until, seq)
}

/// A token instance: the composed balance and allowance ledgers, the admin
/// record, the immutable display metadata, an optional provenance record, the
/// instance entry's eviction horizon, and the log of published events.
pub struct Token {
    admin: Address,
    metadata: TokenMetadata,
    wine_lot: Option<WineLotMetadata>,
    balances: Vec<BalanceEntry>,
    allowances: Vec<AllowanceEntry>,
    instance_live_until: u32,
    events: Vec<TokenEvent>,
}

impl View for Token {
    type V = TokenModel;

    closed spec fn view(&self) -> TokenModel {
        TokenModel {
            admin: self.admin,
            decimal: self.metadata.decimal,
            name: self.metadata.name@,
            symbol: self.metadata.symbol@,
            wine_lot: self.wine_lot,
            balances: self.balances@,
            allowances: self.allowances@,
            instance_live_until: self.instance_live_until,
            events: self.events@,
        }
    }
}

impl Token {
    /// Well-formedness: unique owners and keys, non-negative amounts, and at
    /// most 18 decimals.  Construction establishes it; every operation
    /// preserves it.
    pub open spec fn wf(&self) -> bool {
        &&& balances_wf(self@.balances)
        &&& allowances_wf(self@.allowances)
        &&& self@.decimal <= 18
    }

    /// Builds a fresh token instance.  This is the only place the admin and
    /// the display metadata are set.  With a provenance record, the display
    /// name and symbol are derived from it; without one, the supplied name
    /// and symbol are used directly.
    pub fn __constructor(
        admin: Address,
        decimal: u32,
        name: String,
        symbol: String,
        wine_lot_metadata: Option<WineLotMetadata>,
    ) -> (t: Token)
        requires
            decimal <= 18,
        ensures
            t.wf(),
            t@.admin == admin,
            t@.decimal == decimal,
            match wine_lot_metadata {
                Some(m) => t@.name == composed_name(&m) && t@.symbol == composed_symbol(&m),
                None => t@.name == name@ && t@.symbol == symbol@,
            },
            t@.wine_lot == wine_lot_metadata,
            t@.balances == Seq::<BalanceEntry>::empty(),
            t@.allowances == Seq::<AllowanceEntry>::empty(),
            t@.events == Seq::<TokenEvent>::empty(),
            t@.instance_live_until == 0,
    {
        let mut wine_slot: Option<WineLotMetadata> = None;
        let (meta_name, meta_symbol): (String, String) = match wine_lot_metadata {
            Some(m) => {
                let mut token_name = String::from_str("WineLot-");
                token_name.append(m.winery_name.as_str());
                token_name.append("-");
                push_decimal(&mut token_name, m.vintage);
                let mut token_symbol = String::from_str("WLT-");
                token_symbol.append(m.token_code.as_str());
                proof {
                    assert(token_name@ =~= composed_name(&m));
                    assert(token_symbol@ =~= composed_symbol(&m));
                }
                set_wine_lot_metadata(&mut wine_slot, &m);
                (token_name, token_symbol)
            },
            None => (name, symbol),
        };
        Token {
            admin,
            metadata: TokenMetadata { decimal, name: meta_name, symbol: meta_symbol },
            wine_lot: wine_slot,
            balances: Vec::new(),
            allowances: Vec::new(),
            instance_live_until: 0,
            events: Vec::new(),
        }
    }

    /// Returns the stored provenance record, renewing the instance horizon.
    pub fn get_wine_lot_metadata(&mut self, seq: u32) -> (r: Option<WineLotMetadata>)
        requires
            seq + INSTANCE_BUMP_AMOUNT <= u32::MAX,
        ensures
            r == old(self)@.wine_lot,
            only_instance_bumped(old(self)@, final(self)@, seq),
    {
        self.instance_live_until = extend_instance_ttl(self.instance_live_until, seq);
        get_wine_lot_metadata(&self.wine_lot)
    }

    /// Credits `to` with freshly minted units.  Only the admin may mint.
    pub fn mint(&mut self, caller: Address, to: Address, amount: i128, seq: u32)
        requires
            old(self).wf(),
            caller == old(self)@.admin,
            amount >= 0,
            bal_of(old(self)@.balances, to) + amount <= i128::MAX,
            seq + BALANCE_BUMP_AMOUNT <= u32::MAX,
        ensures
            final(self).wf(),
            final(self)@.balances == spec_credit(old(self)@.balances, to, amount as int, seq),
            bal_of(final(self)@.balances, to) == bal_of(old(self)@.balances, to) + amount,
            forall|o: Address|
                o != to ==> #[trigger] bal_of(final(self)@.balances, o) == bal_of(
                    old(self)@.balances,
                    o,
                ),
            sum_of(final(self)@.balances) == sum_of(old(self)@.balances) + amount,
            final(self)@.allowances == old(self)@.allowances,
            same_admin_and_metadata(old(self)@, final(self)@),
            final(self)@.instance_live_until == bumped_instance(
                old(self)@.instance_live_until,
                seq,
            ),
            final(self)@.events == old(self)@.events.push(TokenEvent::Mint { to, amount }),
    {
        self.instance_live_until = extend_instance_ttl(self.instance_live_until, seq);
        receive_balance(&mut self.balances, to, amount, seq);
        self.events.push(TokenEvent::Mint { to, amount });
    }

    /// Replaces the administrator.  Only the current admin may do so.
    pub fn set_admin(&mut self, caller: Address, new_admin: Address, seq: u32)
        requires
            old(self).wf(),
            caller == old(self)@.admin,
            seq + INSTANCE_BUMP_AMOUNT <= u32::MAX,
        ensures
            final(self).wf(),
            final(self)@.admin == new_admin,
            final(self)@.balances == old(self)@.balances,
            final(self)@.allowances == old(self)@.allowances,
            final(self)@.decimal == old(self)@.decimal,
            final(self)@.name == old(self)@.name,
            final(self)@.symbol == old(self)@.symbol,
            final(self)@.wine_lot == old(self)@.wine_lot,
            final(self)@.instance_live_until == bumped_instance(
                old(self)@.instance_live_until,
                seq,
            ),
            final(self)@.events == old(self)@.events.push(
                TokenEvent::SetAdmin(SetAdmin { admin: old(self)@.admin, new_admin }),
            ),
    {
        let admin = self.admin;
        self.instance_live_until = extend_instance_ttl(self.instance_live_until, seq);
        self.admin = new_admin;
        self.events.push(TokenEvent::SetAdmin(SetAdmin { admin, new_admin }));
    }

    /// Returns the raw stored allowance entry, ignoring expiration: a
    /// diagnostic view of the persisted record.
    pub fn get_allowance(&self, from: Address, spender: Address) -> (r: Option<AllowanceValue>)
        requires
            self.wf(),
        ensures
            index_of_key(self@.allowances, AllowanceDataKey { from, spender }) >= 0 ==> r == Some(
                stored_value(self@.allowances, AllowanceDataKey { from, spender }),
            ),
            index_of_key(self@.allowances, AllowanceDataKey { from, spender }) < 0 ==> r
                == None::<AllowanceValue>,
    {
        get_stored_allowance(&self.allowances, from, spender)
    }

    /// The effective allowance granted by `from` to `spender`: zero once the
    /// current sequence is past the stored expiration.
    pub fn allowance(&mut self, from: Address, spender: Address, seq: u32) -> (r: i128)
        requires
            old(self).wf(),
            seq + INSTANCE_BUMP_AMOUNT <= u32::MAX,
        ensures
            final(self).wf(),
            r as int == effective_allowance(
                old(self)@.allowances,
                AllowanceDataKey { from, spender },
                seq,
            ),
            only_instance_bumped(old(self)@, final(self)@, seq),
    {
        self.instance_live_until = extend_instance_ttl(self.instance_live_until, seq);
        let value = read_allowance(&self.allowances, from, spender, seq);
        value.amount
    }

    /// Grants `spender` an allowance over `from`'s balance, overwriting any
    /// prior grant unconditionally.  Only `from` may approve.  An expiration
    /// already in the past is accepted and stored; the grant is then
    /// immediately inert.
    pub fn approve(
        &mut self,
        caller: Address,
        from: Address,
        spender: Address,
        amount: i128,
        expiration_ledger: u32,
        seq: u32,
    )
        requires
            old(self).wf(),
            caller == from,
            amount >= 0,
            seq + INSTANCE_BUMP_AMOUNT <= u32::MAX,
        ensures
            final(self).wf(),
            final(self)@.allowances == spec_put(
                old(self)@.allowances,
                AllowanceDataKey { from, spender },
                AllowanceValue { amount, expiration_ledger },
            ),
            stored_value(final(self)@.allowances, AllowanceDataKey { from, spender })
                == (AllowanceValue { amount, expiration_ledger }),
            forall|k2: AllowanceDataKey|
                k2 != (AllowanceDataKey { from, spender }) ==> #[trigger] stored_value(
                    final(self)@.allowances,
                    k2,
                ) == stored_value(old(self)@.allowances, k2),
            final(self)@.balances == old(self)@.balances,
            same_admin_and_metadata(old(self)@, final(self)@),
            final(self)@.instance_live_until == bumped_instance(
                old(self)@.instance_live_until,
                seq,
            ),
            final(self)@.events == old(self)@.events.push(
                TokenEvent::Approve { from, spender, amount, expiration_ledger },
            ),
    {
        self.instance_live_until = extend_instance_ttl(self.instance_live_until, seq);
        write_allowance(&mut self.allowances, from, spender, amount, expiration_ledger);
        self.events.push(TokenEvent::Approve { from, spender, amount, expiration_ledger });
    }

    /// The balance of `id`; an absent entry reads as zero.  Renews both the
    /// instance horizon and the balance entry's horizon.
    pub fn balance(&mut self, id: Address, seq: u32) -> (r: i128)
        requires
            old(self).wf(),
            seq + BALANCE_BUMP_AMOUNT <= u32::MAX,
        ensures
            final(self).wf(),
            r as int == bal_of(old(self)@.balances, id),
            final(self)@.balances == spec_touch(old(self)@.balances, id, seq),
            forall|o: Address|
                #[trigger] bal_of(final(self)@.balances, o) == bal_of(old(self)@.balances, o),
            final(self)@.allowances == old(self)@.allowances,
            same_admin_and_metadata(old(self)@, final(self)@),
            final(self)@.instance_live_until == bumped_instance(
                old(self)@.instance_live_until,
                seq,
            ),
            final(self)@.events == old(self)@.events,
    {
        proof {
            crate::balance::lemma_spec_touch(old(self)@.balances, id, seq);
        }
        self.instance_live_until = extend_instance_ttl(self.instance_live_until, seq);
        read_balance(&mut self.balances, id, seq)
    }

    /// Moves `amount` from `from` to the destination.  Only `from` may
    /// transfer.  A balance below the amount fails with
    /// `InsufficientBalance` and changes nothing.
    pub fn transfer(
        &mut self,
        caller: Address,
        from: Address,
        to_muxed: MuxedAddress,
        amount: i128,
        seq: u32,
    ) -> (r: Result<(), TokenError>)
        requires
            old(self).wf(),
            caller == from,
            amount >= 0,
            bal_of(old(self)@.balances, from) >= amount && to_muxed.address != from ==> bal_of(
                old(self)@.balances,
                to_muxed.address,
            ) + amount <= i128::MAX,
            seq + BALANCE_BUMP_AMOUNT <= u32::MAX,
        ensures
            r is Ok <==> bal_of(old(self)@.balances, from) >= amount,
            r is Err ==> final(self)@ == old(self)@ && r == Err::<(), TokenError>(
                TokenError::InsufficientBalance,
            ),
            r is Ok ==> final(self).wf() && final(self)@.balances == spec_credit(
                spec_debit(old(self)@.balances, from, amount as int, seq),
                to_muxed.address,
                amount as int,
                seq,
            ) && sum_of(final(self)@.balances) == sum_of(old(self)@.balances) && (forall|o: Address|
                #[trigger] bal_of(final(self)@.balances, o) == bal_of(old(self)@.balances, o) + (
                if o == to_muxed.address {
                    amount as int
                } else {
                    0
                }) - (if o == from {
                    amount as int
                } else {
                    0
                })) && final(self)@.allowances == old(self)@.allowances
                && same_admin_and_metadata(old(self)@, final(self)@)
                && final(self)@.instance_live_until == bumped_instance(
                old(self)@.instance_live_until,
                seq,
            ) && final(self)@.events == old(self)@.events.push(
                TokenEvent::Transfer {
                    from,
                    to: to_muxed.address,
                    to_muxed_id: to_muxed.id,
                    amount,
                },
            ),
    {
        let to = to_muxed.address();
        match spend_balance(&mut self.balances, from, amount, seq) {
            Err(e) => {
                return Err(e);
            },
            Ok(()) => {},
        }
        proof {
            // A self-transfer credits back exactly what was debited, so the
            // stored amount cannot exceed the type's range.
            crate::balance::lemma_index_props(old(self)@.balances, from);
        }
        receive_balance(&mut self.balances, to, amount, seq);
        self.instance_live_until = extend_instance_ttl(self.instance_live_until, seq);
        self.events.push(
            TokenEvent::Transfer { from, to, to_muxed_id: to_muxed.id(), amount },
        );
        Ok(())
    }

    /// Moves `amount` from `from` to `to`, spending `spender`'s allowance.
    /// Only `spender` may invoke it.  Fails atomically: if either the
    /// allowance check or the balance check fails, nothing changes.
    pub fn transfer_from(
        &mut self,
        caller: Address,
        spender: Address,
        from: Address,
        to: Address,
        amount: i128,
        seq: u32,
    ) -> (r: Result<(), TokenError>)
        requires
            old(self).wf(),
            caller == spender,
            amount >= 0,
            effective_allowance(old(self)@.allowances, AllowanceDataKey { from, spender }, seq)
                >= amount && bal_of(old(self)@.balances, from) >= amount && to != from ==> bal_of(
                old(self)@.balances,
                to,
            ) + amount <= i128::MAX,
            seq + BALANCE_BUMP_AMOUNT <= u32::MAX,
        ensures
            r is Ok <==> effective_allowance(
                old(self)@.allowances,
                AllowanceDataKey { from, spender },
                seq,
            ) >= amount && bal_of(old(self)@.balances, from) >= amount,
            r is Err ==> final(self)@ == old(self)@,
            effective_allowance(old(self)@.allowances, AllowanceDataKey { from, spender }, seq)
                < amount ==> r == Err::<(), TokenError>(TokenError::InsufficientAllowance),
            effective_allowance(old(self)@.allowances, AllowanceDataKey { from, spender }, seq)
                >= amount && bal_of(old(self)@.balances, from) < amount ==> r == Err::<
                (),
                TokenError,
            >(TokenError::InsufficientBalance),
            r is Ok ==> final(self).wf() && final(self)@.balances == spec_credit(
                spec_debit(old(self)@.balances, from, amount as int, seq),
                to,
                amount as int,
                seq,
            ) && final(self)@.allowances == spec_spend(
                old(self)@.allowances,
                AllowanceDataKey { from, spender },
                amount as int,
                seq,
            ) && effective_allowance(final(self)@.allowances, AllowanceDataKey { from, spender }, seq)
                == effective_allowance(
                old(self)@.allowances,
                AllowanceDataKey { from, spender },
                seq,
            ) - amount && sum_of(final(self)@.balances) == sum_of(old(self)@.balances) && (forall|
                o: Address,
            |
                #[trigger] bal_of(final(self)@.balances, o) == bal_of(old(self)@.balances, o) + (
                if o == to {
                    amount as int
                } else {
                    0
                }) - (if o == from {
                    amount as int
                } else {
                    0
                })) && same_admin_and_metadata(old(self)@, final(self)@)
                && final(self)@.instance_live_until == bumped_instance(
                old(self)@.instance_live_until,
                seq,
            ) && final(self)@.events == old(self)@.events.push(
                TokenEvent::Transfer { from, to, to_muxed_id: None, amount },
            ),
    {
        let current = read_allowance(&self.allowances, from, spender, seq);
        if current.amount < amount {
            return Err(TokenError::InsufficientAllowance);
        }
        match spend_balance(&mut self.balances, from, amount, seq) {
            Err(e) => {
                return Err(e);
            },
            Ok(()) => {},
        }
        match spend_allowance(&mut self.allowances, from, spender, amount, seq) {
            Err(_) => {
                // The allowance was checked above and balances do not touch it.
                proof {
                    assert(false);
                }
            },
            Ok(()) => {},
        }
        proof {
            // A self-transfer credits back exactly what was debited, so the
            // stored amount cannot exceed the type's range.
            crate::balance::lemma_index_props(old(self)@.balances, from);
        }
        receive_balance(&mut self.balances, to, amount, seq);
        self.instance_live_until = extend_instance_ttl(self.instance_live_until, seq);
        self.events.push(TokenEvent::Transfer { from, to, to_muxed_id: None, amount });
        Ok(())
    }

    /// Destroys `amount` units of `from`'s balance.  Only `from` may burn.
    pub fn burn(&mut self, caller: Address, from: Address, amount: i128, seq: u32) -> (r: Result<
        (),
        TokenError,
    >)
        requires
            old(self).wf(),
            caller == from,
            amount >= 0,
            seq + BALANCE_BUMP_AMOUNT <= u32::MAX,
        ensures
            r is Ok <==> bal_of(old(self)@.balances, from) >= amount,
            r is Err ==> final(self)@ == old(self)@ && r == Err::<(), TokenError>(
                TokenError::InsufficientBalance,
            ),
            r is Ok ==> final(self).wf() && final(self)@.balances == spec_debit(
                old(self)@.balances,
                from,
                amount as int,
                seq,
            ) && sum_of(final(self)@.balances) == sum_of(old(self)@.balances) - amount && bal_of(
                final(self)@.balances,
                from,
            ) == bal_of(old(self)@.balances, from) - amount && (forall|o: Address|
                o != from ==> #[trigger] bal_of(final(self)@.balances, o) == bal_of(
                    old(self)@.balances,
                    o,
                )) && final(self)@.allowances == old(self)@.allowances
                && same_admin_and_metadata(old(self)@, final(self)@)
                && final(self)@.instance_live_until == bumped_instance(
                old(self)@.instance_live_until,
                seq,
            ) && final(self)@.events == old(self)@.events.push(TokenEvent::Burn { from, amount }),
    {
        match spend_balance(&mut self.balances, from, amount, seq) {
            Err(e) => {
                return Err(e);
            },
            Ok(()) => {},
        }
        self.instance_live_until = extend_instance_ttl(self.instance_live_until, seq);
        self.events.push(TokenEvent::Burn { from, amount });
        Ok(())
    }

    /// Destroys `amount` units of `from`'s balance, spending `spender`'s
    /// allowance.  Only `spender` may invoke it.  Fails atomically.
    pub fn burn_from(
        &mut self,
        caller: Address,
        spender: Address,
        from: Address,
        amount: i128,
        seq: u32,
    ) -> (r: Result<(), TokenError>)
        requires
            old(self).wf(),
            caller == spender,
            amount >= 0,
            seq + BALANCE_BUMP_AMOUNT <= u32::MAX,
        ensures
            r is Ok <==> effective_allowance(
                old(self)@.allowances,
                AllowanceDataKey { from, spender },
                seq,
            ) >= amount && bal_of(old(self)@.balances, from) >= amount,
            r is Err ==> final(self)@ == old(self)@,
            effective_allowance(old(self)@.allowances, AllowanceDataKey { from, spender }, seq)
                < amount ==> r == Err::<(), TokenError>(TokenError::InsufficientAllowance),
            effective_allowance(old(self)@.allowances, AllowanceDataKey { from, spender }, seq)
                >= amount && bal_of(old(self)@.balances, from) < amount ==> r == Err::<
                (),
                TokenError,
            >(TokenError::InsufficientBalance),
            r is Ok ==> final(self).wf() && final(self)@.balances == spec_debit(
                old(self)@.balances,
                from,
                amount as int,
                seq,
            ) && final(self)@.allowances == spec_spend(
                old(self)@.allowances,
                AllowanceDataKey { from, spender },
                amount as int,
                seq,
            ) && sum_of(final(self)@.balances) == sum_of(old(self)@.balances) - amount
                && same_admin_and_metadata(old(self)@, final(self)@)
                && final(self)@.instance_live_until == bumped_instance(
                old(self)@.instance_live_until,
                seq,
            ) && final(self)@.events == old(self)@.events.push(TokenEvent::Burn { from, amount }),
    {
        let current = read_allowance(&self.allowances, from, spender, seq);
        if current.amount < amount {
            return Err(TokenError::InsufficientAllowance);
        }
        match spend_balance(&mut self.balances, from, amount, seq) {
            Err(e) => {
                return Err(e);
            },
            Ok(()) => {},
        }
        match spend_allowance(&mut self.allowances, from, spender, amount, seq) {
            Err(_) => {
                // The allowance was checked above and balances do not touch it.
                proof {
                    assert(false);
                }
            },
            Ok(()) => {},
        }
        self.instance_live_until = extend_instance_ttl(self.instance_live_until, seq);
        self.events.push(TokenEvent::Burn { from, amount });
        Ok(())
    }

    /// The number of decimals the display representation uses.
    pub fn decimals(&self) -> (r: u32)
        ensures
            r == self@.decimal,
    {
        self.metadata.decimal
    }

    /// The display name.
    pub fn name(&self) -> (r: String)
        ensures
            r@ == self@.name,
    {
        self.metadata.name.clone()
    }

    /// The display symbol.
    pub fn symbol(&self) -> (r: String)
        ensures
            r@ == self@.symbol,
    {
        self.metadata.symbol.clone()
    }

    /// The log of published events, oldest first.
    pub fn events(&self) -> (r: &Vec<TokenEvent>)
        ensures
            r@ == self@.events,
    {
        &self.events
    }

    /// The eviction horizon of the instance entry, as last renewed.
    pub fn instance_live_until(&self) -> (r: u32)
        ensures
            r == self@.instance_live_until,
    {
        self.instance_live_until
    }
}

} // verus!
