//! The capabilities the driver needs from the platform.
//!
//! They are implemented by the user for the actual peripherals; nothing is assumed
//! of what an implementation does beyond its signature.
use vstd::prelude::*;

verus! {

/// A write-only serial bus (SPI, clock phase: capture on first transition, clock
/// polarity: idle low).
pub trait Transport {
    /// What a failed write reports.
    type Error;

    /// Writes `bytes` on the bus, in order.
    fn write(&mut self, bytes: &[u8]) -> Result<(), Self::Error>;
}

/// A digital output line.
pub trait ControlLine {
    /// Drives the line high.
    fn set_high(&mut self);

    /// Drives the line low.
    fn set_low(&mut self);
}

/// A blocking microsecond delay.
pub trait DelaySource {
    /// Blocks for `us` microseconds.
    fn delay_us(&mut self, us: u8);
}

} // verus!
