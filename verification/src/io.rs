//! The peripheral interface: a device is a capability with one method
//! per direction. Implementations come from the host; nothing is
//! assumed about the bytes an input device returns, so everything
//! proved about the executor holds whatever a device does.

use vstd::prelude::*;

verus! {

/// A peripheral the processor reads bytes from.
pub trait InputDevice {
    /// Produce one byte. May block; must return or the emulator stalls.
    fn input(&mut self) -> u8;
}

/// A peripheral the processor writes bytes to.
pub trait OutputDevice {
    /// Consume one byte. May block; must return or the emulator stalls.
    fn output(&mut self, value: u8);
}

} // verus!
