//! The set of peripherals of the device.

use super::gpio;
use super::rmt;
use super::sys::EspError;
use vstd::prelude::*;

verus! {

/// The peripherals of the device: its pins and its pulse channels.
pub struct Peripherals {
    pub pins: gpio::Pins,
    pub rmt: rmt::RMT,
}

impl Peripherals {
    /// Takes the peripherals.  On the host this always succeeds.
    pub fn take() -> (r: Result<Self, EspError>)
        ensures
            r is Ok,
    {
        Ok(Self::new())
    }

    /// Creates the set of peripherals.
    ///
    /// On hardware the peripherals exist once, so `take()` is the function
    /// to use there.
    pub fn new() -> Self {
        Self { pins: gpio::Pins::new(), rmt: rmt::RMT::new() }
    }
}

} // verus!
