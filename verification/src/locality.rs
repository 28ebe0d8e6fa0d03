//! Locality levels: how soon and how often prefetched data is used again.
//!
//! A level is a small integer, `0` the least local and `3` the most local.

use vstd::prelude::*;

verus! {

/// The most local level.
pub const MAX_LOCALITY: u32 = 3;

/// Whether `locality` is one of the four levels `0`, `1`, `2`, `3`.
pub open spec fn supported_locality(locality: u32) -> bool {
    locality <= MAX_LOCALITY
}

/// Tells whether `locality` is a supported level, for callers that must
/// reject any other value before they ask for a prefetch.
pub fn is_supported_locality(locality: u32) -> (ok: bool)
    ensures
        ok == supported_locality(locality),
{
    locality <= MAX_LOCALITY
}

} // verus!
