//! The architecture backend: from a locality level to the variant of the
//! x86 family's prefetch instruction.

use vstd::prelude::*;
use crate::locality::supported_locality;

verus! {

/// A variant of the processor's prefetch instruction.
#[derive(Clone, Copy, Debug, PartialEq, Eq, Structural)]
pub enum Hint {
    /// Non-temporal: the data is used once and must not displace other
    /// cache lines for long.
    NonTemporal,
    /// Into the outermost shared cache level, or the next best level where
    /// that one does not exist.
    Outermost,
    /// Into the second-level cache and above.
    SecondLevel,
    /// Into every cache level, to be kept as long as possible.
    AllLevels,
}

impl Hint {
    /// The variant that a supported locality level stands for.
    pub open spec fn of_locality(locality: u32) -> Hint
        recommends
            supported_locality(locality),
    {
        if locality == 0 {
            Hint::NonTemporal
        } else if locality == 1 {
            Hint::Outermost
        } else if locality == 2 {
            Hint::SecondLevel
        } else {
            Hint::AllLevels
        }
    }
}

/// Picks the instruction variant for the level `LOCALITY`.
///
/// Any other value than the four levels is the caller's error and is
/// excluded here; nothing is clamped.
pub fn prefetch_x86<const LOCALITY: u32>() -> (hint: Hint)
    requires
        supported_locality(LOCALITY),
    ensures
        hint == Hint::of_locality(LOCALITY),
{
    match LOCALITY {
        0 => Hint::NonTemporal,
        1 => Hint::Outermost,
        2 => Hint::SecondLevel,
        _ => Hint::AllLevels,
    }
}

/// Distinct levels never share an instruction variant.
pub proof fn lemma_levels_have_distinct_hints(a: u32, b: u32)
    requires
        supported_locality(a),
        supported_locality(b),
        a != b,
    ensures
        Hint::of_locality(a) != Hint::of_locality(b),
{
}

} // verus!
