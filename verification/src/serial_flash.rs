//! Configuration blocks for serial flash memory devices.

pub mod nor;
