//! Verified decision core of a portable cache-prefetch hint library.
//!
//! A prefetch is advice to the memory subsystem and never changes what a
//! program computes. What can be decided ahead of the machine instruction is
//! decided here and proved: which locality levels are accepted, which backend
//! a build uses, and which action each of the four operations stands for.
//! Issuing that action on a pointer is left to the caller's thin shell.

pub mod architecture;
pub mod backend;
pub mod locality;
pub mod plan;

pub use architecture::{prefetch_x86, Hint};
pub use backend::{select_backend, Arch, Backend, BuildConfig};
pub use locality::{is_supported_locality, MAX_LOCALITY};
pub use plan::{
    is_prefetchable, prefetch_read_data, prefetch_read_data_raw, prefetch_write_data,
    prefetch_write_data_raw, Action, Intent,
};
