//! The capability selector: which of the hint strategies a build uses.
//!
//! The choice depends on the build alone, never on a call or on run-time
//! state, so it is a function of a description of the build.

use vstd::prelude::*;

verus! {

/// The processor family that a build targets.
#[derive(Clone, Copy, Debug, PartialEq, Eq, Structural)]
pub enum Arch {
    /// 32-bit x86.
    X86,
    /// 64-bit x86.
    X86_64,
    /// Any family for which no hint instruction is wired up.
    Other,
}

impl Arch {
    /// Whether the family has a prefetch instruction known to this library.
    pub open spec fn has_hint_instruction(self) -> bool {
        self is X86 || self is X86_64
    }

    /// Run-time form of [`Arch::has_hint_instruction`].
    pub fn supports_hint_instruction(&self) -> (yes: bool)
        ensures
            yes == self.has_hint_instruction(),
    {
        match self {
            Arch::X86 | Arch::X86_64 => true,
            Arch::Other => false,
        }
    }
}

/// What a build switches on, as far as prefetching goes.
#[derive(Clone, Copy, Debug, PartialEq, Eq, Structural)]
pub struct BuildConfig {
    /// The experimental compiler intrinsic is enabled.
    pub compiler_intrinsic: bool,
    /// The processor family the build targets.
    pub arch: Arch,
    /// The portable fallback is enabled.
    pub fallback: bool,
}

/// The strategy by which a build carries out a prefetch.
#[derive(Clone, Copy, Debug, PartialEq, Eq, Structural)]
pub enum Backend {
    /// The compiler lowers the prefetch itself.
    CompilerIntrinsic,
    /// The processor's own prefetch instruction.
    Architecture,
    /// A volatile read of one byte at the target.
    Fallback,
    /// No hardware action at all; calls still compile and return.
    Inert,
}

impl BuildConfig {
    /// The backend of this build: the first that applies, in the order
    /// compiler intrinsic, architecture, fallback, and otherwise none.
    pub open spec fn backend(self) -> Backend {
        if self.compiler_intrinsic {
            Backend::CompilerIntrinsic
        } else if self.arch.has_hint_instruction() {
            Backend::Architecture
        } else if self.fallback {
            Backend::Fallback
        } else {
            Backend::Inert
        }
    }
}

/// Selects the backend of `build`.
pub fn select_backend(build: BuildConfig) -> (backend: Backend)
    ensures
        backend == build.backend(),
{
    if build.compiler_intrinsic {
        Backend::CompilerIntrinsic
    } else if build.arch.supports_hint_instruction() {
        Backend::Architecture
    } else if build.fallback {
        Backend::Fallback
    } else {
        Backend::Inert
    }
}

} // verus!
