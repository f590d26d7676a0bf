//! The wine token factory: a deployment registry with a deterministic salt
//! derivation.
//!
//! The factory keeps the admin, the current token code-version hash, and an
//! append-only, zero-indexed table of the addresses it has deployed; the
//! table's length is the deployment counter.  A deployment derives its salt
//! from the counter — the counter encoded big-endian, left-padded with zeros
//! to the 32-byte salt width — so every deployment from one factory gets a
//! distinct, precomputable salt.
//!
//! The code-instantiation primitive itself is the host's: the factory
//! prepares a [`DeploymentRequest`] describing exactly what to instantiate,
//! the host performs it, and the resulting address is handed back to
//! [`WineFactory::create_wine_token`], which records it all-or-nothing.

use vstd::prelude::*;
use crate::models::{Address, BytesN32, WineLotMetadata};
use crate::storage_types::{bumped_instance, extend_instance_ttl, INSTANCE_BUMP_AMOUNT};

verus! {

/// The failures of the factory's read and deploy paths.
#[derive(Clone, Copy, PartialEq, Eq, Structural, Debug)]
pub enum WineFactoryError {
    NotInitialized,
    AdminNotFound,
    TokenNotFound,
}

/// One entry of the factory's event log.
#[derive(Debug, PartialEq, Eq)]
pub enum WineFactoryEvent {
    CreateWineToken { token_address: Address },
    SetAdmin { new_admin: Address },
    SetTokenWasmHash { new_token_wasm_hash: BytesN32 },
}

/// The byte at position `i` of the salt derived from a counter: the counter
/// big-endian in the last four bytes, zero (the left padding) elsewhere.
pub open spec fn salt_byte(counter: u32, i: int) -> u8 {
    if i == 28 {
        ((counter >> 24) & 0xff) as u8
    } else if i == 29 {
        ((counter >> 16) & 0xff) as u8
    } else if i == 30 {
        ((counter >> 8) & 0xff) as u8
    } else if i == 31 {
        (counter & 0xff) as u8
    } else {
        0
    }
}

/// The 32-byte deployment salt derived from a counter.
pub open spec fn salt_for_counter(counter: u32) -> Seq<u8> {
    Seq::new(32, |i: int| salt_byte(counter, i))
}

/// Derives the deployment salt for a counter value.
pub fn derive_salt(counter: u32) -> (r: Vec<u8>)
    ensures
        r@ == salt_for_counter(counter),
        r@.len() == 32,
{
    proof {
        assert((counter >> 24) & 0xff < 256) by (bit_vector);
        assert((counter >> 16) & 0xff < 256) by (bit_vector);
        assert((counter >> 8) & 0xff < 256) by (bit_vector);
        assert(counter & 0xff < 256) by (bit_vector);
    }
    let mut v: Vec<u8> = Vec::new();
    let mut i: usize = 0;
    while i < 28
        invariant
            i <= 28,
            v@.len() == i,
            forall|j: int| 0 <= j < i ==> v@[j] == salt_byte(counter, j),
        decreases 28 - i,
    {
        v.push(0);
        i = i + 1;
    }
    v.push(((counter >> 24) & 0xff) as u8);
    v.push(((counter >> 16) & 0xff) as u8);
    v.push(((counter >> 8) & 0xff) as u8);
    v.push((counter & 0xff) as u8);
    proof {
        assert(v@ =~= salt_for_counter(counter));
    }
    v
}

/// Distinct counters derive distinct salts: the last four salt bytes
/// recover the counter.
pub proof fn lemma_salt_injective(a: u32, b: u32)
    requires
        salt_for_counter(a) == salt_for_counter(b),
    ensures
        a == b,
{
    assert(salt_for_counter(a)[28] == salt_byte(a, 28) && salt_for_counter(b)[28] == salt_byte(
        b,
        28,
    ));
    assert(salt_for_counter(a)[29] == salt_byte(a, 29) && salt_for_counter(b)[29] == salt_byte(
        b,
        29,
    ));
    assert(salt_for_counter(a)[30] == salt_byte(a, 30) && salt_for_counter(b)[30] == salt_byte(
        b,
        30,
    ));
    assert(salt_for_counter(a)[31] == salt_byte(a, 31) && salt_for_counter(b)[31] == salt_byte(
        b,
        31,
    ));
    assert(((a >> 24) & 0xff) as u8 == ((b >> 24) & 0xff) as u8);
    assert(((a >> 16) & 0xff) as u8 == ((b >> 16) & 0xff) as u8);
    assert(((a >> 8) & 0xff) as u8 == ((b >> 8) & 0xff) as u8);
    assert((a & 0xff) as u8 == (b & 0xff) as u8);
    assert(((a >> 24) & 0xff) as u8 == ((b >> 24) & 0xff) as u8 && ((a >> 16) & 0xff) as u8 == ((b
        >> 16) & 0xff) as u8 && ((a >> 8) & 0xff) as u8 == ((b >> 8) & 0xff) as u8 && (a
        & 0xff) as u8 == (b & 0xff) as u8 ==> a == b) by (bit_vector);
}

/// Within one factory the counter never repeats, so no two deployments ever
/// share a salt.
pub proof fn lemma_salts_distinct(a: u32, b: u32)
    requires
        a != b,
    ensures
        salt_for_counter(a) != salt_for_counter(b),
{
    if salt_for_counter(a) == salt_for_counter(b) {
        lemma_salt_injective(a, b);
    }
}

/// Two factories with identical code-version hashes and identical counter
/// values derive identical salts — and, since `deployment_request` pins the
/// whole request to exactly the stored hash, the derived salt and the
/// arguments passed through, they hand the deployment primitive identical
/// requests, so a fixed primitive yields identical addresses.
pub proof fn lemma_deployment_determinism(f1: &WineFactory, f2: &WineFactory)
    requires
        f1@.token_wasm_hash == f2@.token_wasm_hash,
        f1@.tokens.len() == f2@.tokens.len(),
    ensures
        salt_for_counter(f1@.tokens.len() as u32) == salt_for_counter(f2@.tokens.len() as u32),
{
}

/// Everything the code-instantiation primitive needs for one deployment: the
/// code-version hash, the derived salt, and the new instance's constructor
/// arguments.
pub struct DeploymentRequest {
    pub token_wasm_hash: BytesN32,
    pub salt: Vec<u8>,
    pub admin: Address,
    pub decimal: u32,
    pub name: String,
    pub symbol: String,
    pub wine_lot_metadata: WineLotMetadata,
}

/// Assembles the deployment request for a new wine token contract: the salt
/// derived from the current counter, and the constructor arguments passed
/// through verbatim.
pub fn create_wine_token_contract(
    token_wasm_hash: &BytesN32,
    total_tokens: u32,
    admin: Address,
    decimal: u32,
    name: String,
    symbol: String,
    wine_lot_metadata: WineLotMetadata,
) -> (r: DeploymentRequest)
    ensures
        r.token_wasm_hash@ == token_wasm_hash@,
        r.salt@ == salt_for_counter(total_tokens),
        r.admin == admin,
        r.decimal == decimal,
        r.name@ == name@,
        r.symbol@ == symbol@,
        r.wine_lot_metadata == wine_lot_metadata,
{
    DeploymentRequest {
        token_wasm_hash: token_wasm_hash.duplicate(),
        salt: derive_salt(total_tokens),
        admin,
        decimal,
        name,
        symbol,
        wine_lot_metadata,
    }
}

/// The abstract state of a factory, as the contracts speak of it.
pub struct WineFactoryModel {
    pub admin: Address,
    pub token_wasm_hash: Seq<u8>,
    pub tokens: Seq<Address>,
    pub instance_live_until: u32,
    pub events: Seq<WineFactoryEvent>,
}

/// The deployment registry: the admin, the current code-version hash, the
/// counter-indexed address table, the instance entry's eviction horizon, and
/// the log of published events.
pub struct WineFactory {
    admin: Address,
    token_wasm_hash: BytesN32,
    tokens: Vec<Address>,
    instance_live_until: u32,
    events: Vec<WineFactoryEvent>,
}

impl View for WineFactory {
    type V = WineFactoryModel;

    closed spec fn view(&self) -> WineFactoryModel {
        WineFactoryModel {
            admin: self.admin,
            token_wasm_hash: self.token_wasm_hash@,
            tokens: self.tokens@,
            instance_live_until: self.instance_live_until,
            events: self.events@,
        }
    }
}

impl WineFactory {
    /// Well-formedness: a full-width code-version hash and a counter within
    /// range.
    pub open spec fn wf(&self) -> bool {
        &&& self@.token_wasm_hash.len() == 32
        &&& self@.tokens.len() <= u32::MAX
    }

    /// Builds the factory: stores the admin and the code-version hash and
    /// starts the deployment counter at zero.
    pub fn __constructor(admin: Address, token_wasm_hash: BytesN32, seq: u32) -> (r: Result<
        WineFactory,
        WineFactoryError,
    >)
        requires
            token_wasm_hash.wf(),
            seq + INSTANCE_BUMP_AMOUNT <= u32::MAX,
        ensures
            match r {
                Ok(f) => f.wf() && f@.admin == admin && f@.token_wasm_hash == token_wasm_hash@
                    && f@.tokens == Seq::<Address>::empty() && f@.events == Seq::<
                    WineFactoryEvent,
                >::empty() && f@.instance_live_until == bumped_instance(0, seq),
                Err(_) => false,
            },
    {
        Ok(
            WineFactory {
                admin,
                token_wasm_hash,
                tokens: Vec::new(),
                instance_live_until: extend_instance_ttl(0, seq),
                events: Vec::new(),
            },
        )
    }

    /// Assembles the request the deployment primitive needs for the next
    /// deployment: the stored code-version hash, the salt derived from the
    /// current counter, and the constructor arguments.
    pub fn deployment_request(
        &self,
        admin: Address,
        decimal: u32,
        name: String,
        symbol: String,
        wine_lot_metadata: WineLotMetadata,
    ) -> (r: Result<DeploymentRequest, WineFactoryError>)
        requires
            self.wf(),
        ensures
            match r {
                Ok(req) => req.token_wasm_hash@ == self@.token_wasm_hash && req.salt@
                    == salt_for_counter(self@.tokens.len() as u32) && req.admin == admin
                    && req.decimal == decimal && req.name@ == name@ && req.symbol@ == symbol@
                    && req.wine_lot_metadata == wine_lot_metadata,
                Err(_) => false,
            },
    {
        let total_tokens = self.tokens.len() as u32;
        Ok(
            create_wine_token_contract(
                &self.token_wasm_hash,
                total_tokens,
                admin,
                decimal,
                name,
                symbol,
                wine_lot_metadata,
            ),
        )
    }

    /// Records a deployment the host reported successful: appends the new
    /// address to the table — which advances the counter by one — and
    /// publishes the creation event.  A failed instantiation never reaches
    /// this point, so the registry is all-or-nothing.
    pub fn create_wine_token(&mut self, token_address: Address, seq: u32) -> (r: Result<
        Address,
        WineFactoryError,
    >)
        requires
            old(self).wf(),
            old(self)@.tokens.len() < u32::MAX,
            seq + INSTANCE_BUMP_AMOUNT <= u32::MAX,
        ensures
            r == Ok::<Address, WineFactoryError>(token_address),
            final(self).wf(),
            final(self)@.tokens == old(self)@.tokens.push(token_address),
            final(self)@.events == old(self)@.events.push(
                WineFactoryEvent::CreateWineToken { token_address },
            ),
            final(self)@.admin == old(self)@.admin,
            final(self)@.token_wasm_hash == old(self)@.token_wasm_hash,
            final(self)@.instance_live_until == bumped_instance(
                old(self)@.instance_live_until,
                seq,
            ),
    {
        self.instance_live_until = extend_instance_ttl(self.instance_live_until, seq);
        self.tokens.push(token_address);
        self.events.push(WineFactoryEvent::CreateWineToken { token_address });
        Ok(token_address)
    }

    /// Replaces the administrator.  Only the current admin may do so.
    pub fn set_admin(&mut self, caller: Address, new_admin: Address, seq: u32) -> (r: Result<
        (),
        WineFactoryError,
    >)
        requires
            old(self).wf(),
            caller == old(self)@.admin,
            seq + INSTANCE_BUMP_AMOUNT <= u32::MAX,
        ensures
            r == Ok::<(), WineFactoryError>(()),
            final(self).wf(),
            final(self)@.admin == new_admin,
            final(self)@.token_wasm_hash == old(self)@.token_wasm_hash,
            final(self)@.tokens == old(self)@.tokens,
            final(self)@.events == old(self)@.events.push(
                WineFactoryEvent::SetAdmin { new_admin },
            ),
            final(self)@.instance_live_until == bumped_instance(
                old(self)@.instance_live_until,
                seq,
            ),
    {
        self.instance_live_until = extend_instance_ttl(self.instance_live_until, seq);
        self.admin = new_admin;
        self.events.push(WineFactoryEvent::SetAdmin { new_admin });
        Ok(())
    }

    /// Replaces the code-version hash future deployments instantiate.  Only
    /// the admin may do so.
    pub fn set_token_wasm_hash(
        &mut self,
        caller: Address,
        new_token_wasm_hash: BytesN32,
        seq: u32,
    ) -> (r: Result<(), WineFactoryError>)
        requires
            old(self).wf(),
            caller == old(self)@.admin,
            new_token_wasm_hash.wf(),
            seq + INSTANCE_BUMP_AMOUNT <= u32::MAX,
        ensures
            r == Ok::<(), WineFactoryError>(()),
            final(self).wf(),
            final(self)@.admin == old(self)@.admin,
            final(self)@.token_wasm_hash == new_token_wasm_hash@,
            final(self)@.tokens == old(self)@.tokens,
            final(self)@.events == old(self)@.events.push(
                WineFactoryEvent::SetTokenWasmHash { new_token_wasm_hash },
            ),
            final(self)@.instance_live_until == bumped_instance(
                old(self)@.instance_live_until,
                seq,
            ),
    {
        self.instance_live_until = extend_instance_ttl(self.instance_live_until, seq);
        self.token_wasm_hash = new_token_wasm_hash.duplicate();
        self.events.push(WineFactoryEvent::SetTokenWasmHash { new_token_wasm_hash });
        Ok(())
    }

    /// The current administrator.
    pub fn admin(&mut self, seq: u32) -> (r: Result<Address, WineFactoryError>)
        requires
            seq + INSTANCE_BUMP_AMOUNT <= u32::MAX,
        ensures
            r == Ok::<Address, WineFactoryError>(old(self)@.admin),
            final(self)@.admin == old(self)@.admin,
            final(self)@.token_wasm_hash == old(self)@.token_wasm_hash,
            final(self)@.tokens == old(self)@.tokens,
            final(self)@.events == old(self)@.events,
            final(self)@.instance_live_until == bumped_instance(
                old(self)@.instance_live_until,
                seq,
            ),
    {
        self.instance_live_until = extend_instance_ttl(self.instance_live_until, seq);
        Ok(self.admin)
    }

    /// The number of tokens deployed so far: the deployment counter.
    pub fn total_tokens(&mut self, seq: u32) -> (r: Result<u32, WineFactoryError>)
        requires
            old(self).wf(),
            seq + INSTANCE_BUMP_AMOUNT <= u32::MAX,
        ensures
            match r {
                Ok(n) => n as int == old(self)@.tokens.len(),
                Err(_) => false,
            },
            final(self)@.admin == old(self)@.admin,
            final(self)@.token_wasm_hash == old(self)@.token_wasm_hash,
            final(self)@.tokens == old(self)@.tokens,
            final(self)@.events == old(self)@.events,
            final(self)@.instance_live_until == bumped_instance(
                old(self)@.instance_live_until,
                seq,
            ),
    {
        self.instance_live_until = extend_instance_ttl(self.instance_live_until, seq);
        Ok(self.tokens.len() as u32)
    }

    /// The address deployed at the given index.  The table is dense and
    /// zero-indexed, so exactly the indices below the counter are present;
    /// any other index fails with `TokenNotFound`.
    pub fn get_token_by_index(&mut self, index: u32, seq: u32) -> (r: Result<
        Address,
        WineFactoryError,
    >)
        requires
            old(self).wf(),
            seq + INSTANCE_BUMP_AMOUNT <= u32::MAX,
        ensures
            index < old(self)@.tokens.len() ==> r == Ok::<Address, WineFactoryError>(
                old(self)@.tokens[index as int],
            ),
            index >= old(self)@.tokens.len() ==> r == Err::<Address, WineFactoryError>(
                WineFactoryError::TokenNotFound,
            ),
            final(self)@.admin == old(self)@.admin,
            final(self)@.token_wasm_hash == old(self)@.token_wasm_hash,
            final(self)@.tokens == old(self)@.tokens,
            final(self)@.events == old(self)@.events,
            final(self)@.instance_live_until == bumped_instance(
                old(self)@.instance_live_until,
                seq,
            ),
    {
        self.instance_live_until = extend_instance_ttl(self.instance_live_until, seq);
        if (index as usize) < self.tokens.len() {
            Ok(self.tokens[index as usize])
        } else {
            Err(WineFactoryError::TokenNotFound)
        }
    }

    /// The code-version hash future deployments instantiate.
    pub fn token_wasm_hash(&mut self, seq: u32) -> (r: Result<BytesN32, WineFactoryError>)
        requires
            seq + INSTANCE_BUMP_AMOUNT <= u32::MAX,
        ensures
            match r {
                Ok(h) => h@ == old(self)@.token_wasm_hash,
                Err(_) => false,
            },
            final(self)@.admin == old(self)@.admin,
            final(self)@.token_wasm_hash == old(self)@.token_wasm_hash,
            final(self)@.tokens == old(self)@.tokens,
            final(self)@.events == old(self)@.events,
            final(self)@.instance_live_until == bumped_instance(
                old(self)@.instance_live_until,
                seq,
            ),
    {
        self.instance_live_until = extend_instance_ttl(self.instance_live_until, seq);
        Ok(self.token_wasm_hash.duplicate())
    }

    /// The log of published events, oldest first.
    pub fn events(&self) -> (r: &Vec<WineFactoryEvent>)
        ensures
            r@ == self@.events,
    {
        &self.events
    }
}

} // verus!
