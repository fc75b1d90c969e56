use vstd::prelude::*;

verus! {

/// A fatal condition met by a device or by the bus: a configuration error
/// or behaviour that this model does not cover.
#[derive(Clone, Copy, Debug, PartialEq, Eq, Structural)]
pub enum Fault {
    /// No device answers at this address.
    UnmappedAddress(u16),
    /// A write reached the read-only memory at this address.
    RomWrite(u16),
    /// A read of an adapter register that is write-only or not modelled.
    UnsupportedRead(u16),
    /// A write to an adapter register that is not modelled.
    UnsupportedWrite(u16),
    /// Timer 1 reached zero in a mode that drives PB7 (ACR bits 7..6).
    UnsupportedTimerMode(u8),
    /// The display was read while its read/write line asked for a write.
    DisplayReadWithoutRw,
}

} // verus!
