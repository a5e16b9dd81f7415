//! What the interrupt handlers decide, apart from the devices they talk to.

pub mod keyboard;
