//! The events of the vault factory, and the functions that publish them.
//!
//! The host event stream is modelled as an explicit log: publishing appends a
//! record carrying the emitter topic, the short symbol topic, and the event
//! payload.

use vstd::prelude::*;
use crate::models::{Address, AssetStrategySet, BytesN32};

verus! {

/// A new vault was created: the role assignments, the vault fee, and the
/// managed assets with their strategies.
#[derive(Debug, PartialEq, Eq)]
pub struct CreatevinificaEvent {
    pub roles: Vec<(u32, Address)>,
    pub vault_fee: u32,
    pub assets: Vec<AssetStrategySet>,
}

/// The factory administrator was replaced.
#[derive(Clone, Copy, PartialEq, Eq, Structural, Debug)]
pub struct NewAdminEvent {
    pub new_admin: Address,
}

/// The fee receiver was replaced.
#[derive(Clone, Copy, PartialEq, Eq, Structural, Debug)]
pub struct NewvinificaReceiverEvent {
    pub new_vinifica_receiver: Address,
}

/// The fee rate was changed.
#[derive(Clone, Copy, PartialEq, Eq, Structural, Debug)]
pub struct NewFeeRateEvent {
    pub new_vinifica_fee: u32,
}

/// The vault code-version hash was changed.
#[derive(Debug, PartialEq, Eq)]
pub struct NewVaultWasmHashEvent {
    pub new_vault_wasm_hash: BytesN32,
}

/// The payload of one published factory event.
#[derive(Debug, PartialEq, Eq)]
pub enum FactoryEventData {
    Create(CreatevinificaEvent),
    NewAdmin(NewAdminEvent),
    NewReceiver(NewvinificaReceiverEvent),
    NewFee(NewFeeRateEvent),
    NewWasmHash(NewVaultWasmHashEvent),
}

/// One record of the event stream: the emitter topic, the short symbol
/// topic, and the payload.
#[derive(Debug, PartialEq, Eq)]
pub struct FactoryEventRecord {
    pub emitter: String,
    pub symbol: String,
    pub data: FactoryEventData,
}

/// Publishes a `CreatevinificaEvent` to the event stream.
pub fn emit_create_vinifica_vault(
    log: &mut Vec<FactoryEventRecord>,
    roles: Vec<(u32, Address)>,
    vault_fee: u32,
    assets: Vec<AssetStrategySet>,
)
    ensures
        final(log)@.len() == old(log)@.len() + 1,
        final(log)@ == old(log)@.push(final(log)@.last()),
        final(log)@.last().emitter@ == "vinificaFactory"@,
        final(log)@.last().symbol@ == "create"@,
        final(log)@.last().data == FactoryEventData::Create(
            CreatevinificaEvent { roles, vault_fee, assets },
        ),
{
    let event = CreatevinificaEvent { roles, vault_fee, assets };
    log.push(
        FactoryEventRecord {
            emitter: String::from_str("vinificaFactory"),
            symbol: String::from_str("create"),
            data: FactoryEventData::Create(event),
        },
    );
}

/// Publishes a `NewAdminEvent` to the event stream.
pub fn emit_new_admin(log: &mut Vec<FactoryEventRecord>, new_admin: Address)
    ensures
        final(log)@.len() == old(log)@.len() + 1,
        final(log)@ == old(log)@.push(final(log)@.last()),
        final(log)@.last().emitter@ == "vinificaFactory"@,
        final(log)@.last().symbol@ == "nadmin"@,
        final(log)@.last().data == FactoryEventData::NewAdmin(NewAdminEvent { new_admin }),
{
    let event = NewAdminEvent { new_admin };
    log.push(
        FactoryEventRecord {
            emitter: String::from_str("vinificaFactory"),
            symbol: String::from_str("nadmin"),
            data: FactoryEventData::NewAdmin(event),
        },
    );
}

/// Publishes a `NewvinificaReceiverEvent` to the event stream.
pub fn emit_new_vinifica_receiver(log: &mut Vec<FactoryEventRecord>, new_vinifica_receiver: Address)
    ensures
        final(log)@.len() == old(log)@.len() + 1,
        final(log)@ == old(log)@.push(final(log)@.last()),
        final(log)@.last().emitter@ == "vinificaFactory"@,
        final(log)@.last().symbol@ == "nreceiver"@,
        final(log)@.last().data == FactoryEventData::NewReceiver(
            NewvinificaReceiverEvent { new_vinifica_receiver },
        ),
{
    let event = NewvinificaReceiverEvent { new_vinifica_receiver };
    log.push(
        FactoryEventRecord {
            emitter: String::from_str("vinificaFactory"),
            symbol: String::from_str("nreceiver"),
            data: FactoryEventData::NewReceiver(event),
        },
    );
}

/// Publishes a `NewFeeRateEvent` to the event stream.
pub fn emit_new_vinifica_fee(log: &mut Vec<FactoryEventRecord>, new_vinifica_fee: u32)
    ensures
        final(log)@.len() == old(log)@.len() + 1,
        final(log)@ == old(log)@.push(final(log)@.last()),
        final(log)@.last().emitter@ == "vinificaFactory"@,
        final(log)@.last().symbol@ == "n_fee"@,
        final(log)@.last().data == FactoryEventData::NewFee(NewFeeRateEvent { new_vinifica_fee }),
{
    let event = NewFeeRateEvent { new_vinifica_fee };
    log.push(
        FactoryEventRecord {
            emitter: String::from_str("vinificaFactory"),
            symbol: String::from_str("n_fee"),
            data: FactoryEventData::NewFee(event),
        },
    );
}

/// Publishes a `NewVaultWasmHashEvent` to the event stream.
pub fn emit_new_vault_wasm_hash(log: &mut Vec<FactoryEventRecord>, new_vault_wasm_hash: BytesN32)
    ensures
        final(log)@.len() == old(log)@.len() + 1,
        final(log)@ == old(log)@.push(final(log)@.last()),
        final(log)@.last().emitter@ == "vinificaFactory"@,
        final(log)@.last().symbol@ == "n_wasm"@,
        final(log)@.last().data == FactoryEventData::NewWasmHash(
            NewVaultWasmHashEvent { new_vault_wasm_hash },
        ),
{
    let event = NewVaultWasmHashEvent { new_vault_wasm_hash };
    log.push(
        FactoryEventRecord {
            emitter: String::from_str("vinificaFactory"),
            symbol: String::from_str("n_wasm"),
            data: FactoryEventData::NewWasmHash(event),
        },
    );
}

} // verus!
