//! I/O building blocks: errors, the reading, writing and seeking traits, and
//! small readers and writers.

pub mod buf_read;
pub mod error;
pub mod read;
pub mod seek;
pub mod tools;
pub mod write;
