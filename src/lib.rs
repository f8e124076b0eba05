//! A platform-agnostic driver for the PCD8544 LCD controller, found in displays
//! such as the Nokia 5110.
//!
//! The driver owns a serial transport, three control lines (Reset, Chip-Select,
//! Data/Command) and a microsecond delay source, each given through a capability
//! trait of [`hal`]. Every operation it issues on them (a line set high or low, a
//! delay, a bus write and its outcome) is recorded in a ghost log, and the
//! contracts state the exact log that each public operation produces.

pub mod hal;
pub mod trace;
pub mod driver;

pub use driver::Pcd8544;
