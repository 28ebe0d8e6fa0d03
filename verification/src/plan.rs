//! The four prefetch operations, as decisions: each returns the one action
//! that the build's backend takes for it.

use vstd::prelude::*;
use vstd::layout::size_of;
use crate::architecture::{prefetch_x86, Hint};
use crate::backend::{select_backend, Backend, BuildConfig};
use crate::locality::supported_locality;

verus! {

/// What the caller expects to do with the memory next.
#[derive(Clone, Copy, Debug, PartialEq, Eq, Structural)]
pub enum Intent {
    /// The memory will be read.
    Read,
    /// The memory will be written. The prefetch itself never writes.
    Write,
}

/// The one thing a prefetch operation does to its target.
#[derive(Clone, Copy, Debug, PartialEq, Eq, Structural)]
pub enum Action {
    /// Hand the request to the compiler's prefetch lowering for this intent
    /// and locality level.
    Intrinsic { intent: Intent, locality: u32 },
    /// Issue the processor's prefetch instruction in this variant.
    Instruction { hint: Hint },
    /// Read one byte at the target's address, volatile, and discard it. The
    /// byte may be uninitialised.
    VolatileByteRead,
    /// Do nothing.
    Nothing,
}

impl Action {
    /// The action of a prefetch with `intent` at level `locality` under
    /// `build`.
    pub open spec fn planned(build: BuildConfig, intent: Intent, locality: u32) -> Action
        recommends
            supported_locality(locality),
    {
        match build.backend() {
            Backend::CompilerIntrinsic => Action::Intrinsic { intent, locality },
            Backend::Architecture => Action::Instruction { hint: Hint::of_locality(locality) },
            Backend::Fallback => Action::VolatileByteRead,
            Backend::Inert => Action::Nothing,
        }
    }
}

/// Tells whether values of `T` occupy storage, which is what makes a
/// prefetch of one meaningful.
pub fn is_prefetchable<T>() -> (ok: bool)
    ensures
        ok == (size_of::<T>() != 0),
{
    core::mem::size_of::<T>() != 0
}

/// Read-intent prefetch of a `T` behind a raw pointer: the action to take
/// on that pointer.
pub fn prefetch_read_data_raw<T, const LOCALITY: u32>(build: BuildConfig) -> (action: Action)
    requires
        size_of::<T>() != 0,
        supported_locality(LOCALITY),
    ensures
        action == Action::planned(build, Intent::Read, LOCALITY),
{
    match select_backend(build) {
        Backend::CompilerIntrinsic => Action::Intrinsic { intent: Intent::Read, locality: LOCALITY },
        Backend::Architecture => Action::Instruction { hint: prefetch_x86::<LOCALITY>() },
        Backend::Fallback => Action::VolatileByteRead,
        Backend::Inert => Action::Nothing,
    }
}

/// Write-intent prefetch of a `T` behind a raw pointer: the action to take
/// on that pointer.
pub fn prefetch_write_data_raw<T, const LOCALITY: u32>(build: BuildConfig) -> (action: Action)
    requires
        size_of::<T>() != 0,
        supported_locality(LOCALITY),
    ensures
        action == Action::planned(build, Intent::Write, LOCALITY),
{
    match select_backend(build) {
        Backend::CompilerIntrinsic => Action::Intrinsic { intent: Intent::Write, locality: LOCALITY },
        Backend::Architecture => Action::Instruction { hint: prefetch_x86::<LOCALITY>() },
        Backend::Fallback => Action::VolatileByteRead,
        Backend::Inert => Action::Nothing,
    }
}

/// Read-intent prefetch of `data`: what the raw operation does on the
/// address of `data`.
#[allow(unused_variables)]
pub fn prefetch_read_data<T, const LOCALITY: u32>(build: BuildConfig, data: &T) -> (action: Action)
    requires
        size_of::<T>() != 0,
        supported_locality(LOCALITY),
    ensures
        action == Action::planned(build, Intent::Read, LOCALITY),
{
    prefetch_read_data_raw::<T, LOCALITY>(build)
}

/// Write-intent prefetch of `data`: what the raw operation does on the
/// address of `data`.
#[allow(unused_variables)]
pub fn prefetch_write_data<T, const LOCALITY: u32>(build: BuildConfig, data: &T) -> (action: Action)
    requires
        size_of::<T>() != 0,
        supported_locality(LOCALITY),
    ensures
        action == Action::planned(build, Intent::Write, LOCALITY),
{
    prefetch_write_data_raw::<T, LOCALITY>(build)
}

/// Only the compiler intrinsic tells the two intents apart: on every other
/// backend a write-intent prefetch is the same action as a read-intent one.
pub proof fn lemma_intent_matters_only_to_intrinsic(build: BuildConfig, locality: u32)
    requires
        supported_locality(locality),
    ensures
        build.backend() != Backend::CompilerIntrinsic ==> Action::planned(
            build,
            Intent::Write,
            locality,
        ) == Action::planned(build, Intent::Read, locality),
        build.backend() == Backend::CompilerIntrinsic ==> Action::planned(
            build,
            Intent::Write,
            locality,
        ) != Action::planned(build, Intent::Read, locality),
{
}

/// An action never asks for more than the build offers: the intrinsic only
/// where it is enabled, the instruction only on a family that has one, and
/// the byte read only where the fallback is enabled.
pub proof fn lemma_action_within_build(build: BuildConfig, intent: Intent, locality: u32)
    requires
        supported_locality(locality),
    ensures
        Action::planned(build, intent, locality) is Intrinsic ==> build.compiler_intrinsic,
        Action::planned(build, intent, locality) is Instruction
            ==> build.arch.has_hint_instruction(),
        Action::planned(build, intent, locality) is VolatileByteRead ==> build.fallback,
{
}

/// On a build that has the fallback enabled and neither the intrinsic nor a
/// native instruction, every prefetch is the one-byte read, whatever the
/// intent and the level.
pub proof fn lemma_fallback_build_only_reads(build: BuildConfig, intent: Intent, locality: u32)
    requires
        supported_locality(locality),
        build.fallback,
        !build.compiler_intrinsic,
        !build.arch.has_hint_instruction(),
    ensures
        Action::planned(build, intent, locality) == Action::VolatileByteRead,
{
}

} // verus!
