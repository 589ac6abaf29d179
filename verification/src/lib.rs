//! Driver logic for the FM24V10 1-Mbit F-RAM on a two-wire serial bus.
//!
//! The device's 17-bit address space exceeds what the 16-bit in-device
//! address payload can carry, so the top address bit (A16) is folded into
//! the 7-bit bus slave address as a page-select bit. This crate holds the
//! address codec, the bounds checker and the transfer framer, each with a
//! proved contract; the bus transport itself is an abstract capability
//! supplied by the caller.

pub mod address;
pub mod driver;
pub mod frame;

pub use address::Address;
pub use driver::Error;
pub use driver::Fm24v10;
pub use driver::I2cBus;
