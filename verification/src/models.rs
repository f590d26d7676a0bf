//! Shared model types: principal references, fixed 32-byte values, wine lot
//! metadata, and the vault strategy descriptions carried by factory events.

use vstd::prelude::*;

verus! {

/// An opaque principal reference: an account or contract that can hold a
/// balance, grant an allowance, or administer a contract.
#[derive(Clone, Copy, PartialEq, Eq, Structural, Debug)]
pub struct Address(pub u64);

/// A transfer destination together with an optional multiplexing identifier
/// that lets one principal distinguish sub-accounts.  The identifier is
/// carried verbatim into the transfer event and never interpreted.
#[derive(Clone, Copy, PartialEq, Eq, Structural, Debug)]
pub struct MuxedAddress {
    pub address: Address,
    pub id: Option<u64>,
}

impl MuxedAddress {
    /// The underlying principal the funds are credited to.
    pub fn address(&self) -> (r: Address)
        ensures
            r == self.address,
    {
        self.address
    }

    /// The multiplexing identifier, if one was supplied.
    pub fn id(&self) -> (r: Option<u64>)
        ensures
            r == self.id,
    {
        self.id
    }
}

/// A fixed 32-byte value: a code-version digest or a deployment salt.
#[derive(Debug, PartialEq, Eq)]
pub struct BytesN32 {
    bytes: Vec<u8>,
}

impl View for BytesN32 {
    type V = Seq<u8>;

    closed spec fn view(&self) -> Seq<u8> {
        self.bytes@
    }
}

impl BytesN32 {
    /// A well-formed value holds exactly 32 bytes.
    pub open spec fn wf(&self) -> bool {
        self@.len() == 32
    }

    /// Builds the value from a byte array, which fixes the width.
    pub fn from_array(bytes: [u8; 32]) -> (r: BytesN32)
        ensures
            r@ == bytes@,
            r.wf(),
    {
        let mut v: Vec<u8> = Vec::new();
        let mut i: usize = 0;
        while i < 32
            invariant
                i <= 32,
                v@ =~= bytes@.subrange(0, i as int),
            decreases 32 - i,
        {
            v.push(bytes[i]);
            i = i + 1;
        }
        proof {
            assert(v@ =~= bytes@);
        }
        BytesN32 { bytes: v }
    }

    /// The bytes, for callers that hand the value to the host.
    pub fn as_bytes(&self) -> (r: &Vec<u8>)
        ensures
            r@ == self@,
    {
        &self.bytes
    }

    /// A byte-for-byte copy.
    pub fn duplicate(&self) -> (r: BytesN32)
        ensures
            r@ == self@,
    {
        let mut v: Vec<u8> = Vec::new();
        let mut i: usize = 0;
        while i < self.bytes.len()
            invariant
                i <= self.bytes@.len(),
                v@ =~= self.bytes@.subrange(0, i as int),
            decreases self.bytes@.len() - i,
        {
            v.push(self.bytes[i]);
            i = i + 1;
        }
        proof {
            assert(v@ =~= self.bytes@);
        }
        BytesN32 { bytes: v }
    }
}

/// A single investment strategy attached to an asset, as carried by the
/// vault-factory creation event.
#[derive(Debug, PartialEq, Eq)]
pub struct Strategy {
    pub address: Address,
    pub name: String,
    pub paused: bool,
}

impl Clone for Strategy {
    fn clone(&self) -> (r: Self)
        ensures
            r == *self,
    {
        Strategy { address: self.address, name: self.name.clone(), paused: self.paused }
    }
}

/// An asset together with the strategies that may manage it.
#[derive(Debug, PartialEq, Eq)]
pub struct AssetStrategySet {
    pub address: Address,
    pub strategies: Vec<Strategy>,
}

impl Clone for AssetStrategySet {
    fn clone(&self) -> (r: Self)
        ensures
            r.address == self.address,
            r.strategies@ == self.strategies@,
    {
        let mut strategies: Vec<Strategy> = Vec::new();
        let mut i: usize = 0;
        while i < self.strategies.len()
            invariant
                i <= self.strategies@.len(),
                strategies@ =~= self.strategies@.subrange(0, i as int),
            decreases self.strategies@.len() - i,
        {
            strategies.push(self.strategies[i].clone());
            i = i + 1;
        }
        proof {
            assert(strategies@ =~= self.strategies@);
        }
        AssetStrategySet { address: self.address, strategies }
    }
}

/// Provenance metadata attached to a wine lot token.  The core logic stores
/// and returns it verbatim; only the winery name, vintage and token code feed
/// the derived display name and symbol.
#[derive(Debug, PartialEq, Eq)]
pub struct WineLotMetadata {
    pub lot_id: String,
    pub winery_name: String,
    pub region: String,
    pub country: String,
    pub vintage: u32,
    pub varietal: String,
    pub bottle_count: u32,
    pub description: Option<String>,
    pub token_code: String,
}

impl Clone for WineLotMetadata {
    fn clone(&self) -> (r: Self)
        ensures
            r == *self,
    {
        WineLotMetadata {
            lot_id: self.lot_id.clone(),
            winery_name: self.winery_name.clone(),
            region: self.region.clone(),
            country: self.country.clone(),
            vintage: self.vintage,
            varietal: self.varietal.clone(),
            bottle_count: self.bottle_count,
            description: match &self.description {
                Some(d) => Some(d.clone()),
                None => None,
            },
            token_code: self.token_code.clone(),
        }
    }
}

} // verus!
