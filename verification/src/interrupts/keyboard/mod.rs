//! The keyboard: its keys and the PS/2 scancode-set protocol.

pub mod keys;
pub mod ps2;
