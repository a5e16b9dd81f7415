//! Kernel support library: the heap-allocation core (a C-style `malloc` family
//! and a layout-driven family over one bookkeeping engine), the last-error slot,
//! and the small utilities the kernel builds on.

pub mod c_lib;
pub mod interrupts;
pub mod io;
pub mod lib_alloc;
pub mod log;
pub mod panic;
pub mod test;
pub mod text;
