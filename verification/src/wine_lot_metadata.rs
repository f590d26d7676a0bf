//! Storage of the optional wine lot provenance record: stored verbatim at
//! construction, returned verbatim on request, never inspected by the core
//! accounting logic.

use vstd::prelude::*;
use crate::models::WineLotMetadata;

verus! {

/// Stores the provenance record, overwriting any previous one.
pub fn set_wine_lot_metadata(slot: &mut Option<WineLotMetadata>, metadata: &WineLotMetadata)
    ensures
        *final(slot) == Some(*metadata),
{
    *slot = Some(metadata.clone());
}

/// Returns a copy of the stored provenance record, if one was stored.
pub fn get_wine_lot_metadata(slot: &Option<WineLotMetadata>) -> (r: Option<WineLotMetadata>)
    ensures
        r == *slot,
{
    match slot {
        Some(m) => Some(m.clone()),
        None => None,
    }
}

} // verus!
