//! The libc-like surface: the last-error slot and the allocation families.

pub mod error;
pub mod guarantees;
pub mod malloc_wraps;
pub mod math;
pub mod mem;
