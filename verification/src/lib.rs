//! Generator for the boot configuration data that an i.MX RT boot ROM reads
//! out of flash when it brings up an external serial memory device.
//!
//! The boot ROM expects a fixed-size, fixed-offset record at a known flash
//! location. There is no diagnostic path once the record reaches the ROM, so
//! the whole point of this crate is that the byte layout of the record it
//! produces is stated, and proved, down to the last byte:
//!
//! - [`layout`] holds the byte-level building blocks (little-endian fields,
//!   zeroed padding) that the contracts are written over;
//! - [`flexspi`] models the FlexSPI memory-layout primitive that a companion
//!   subsystem lays out and this crate embeds unaltered, save for one
//!   discriminant byte;
//! - [`serial_flash`] builds the serial NOR configuration block itself.
//!
//! Every public operation carries a contract that pins the exact byte
//! sequence of its result, and the mandated total size of the finished
//! record is a proved property of the type, not a runtime check.

pub mod flexspi;
pub mod layout;
pub mod serial_flash;
