//! A driver that records what it is given.
//!
//! It binds no channel and no pin: writing stores the bytes of the frame in
//! `pixel_data`, where they can be read back.

use std::marker::PhantomData;
use vstd::prelude::*;

verus! {

/// WS2812 ESP32 RMT Driver error.
#[derive(Debug)]
pub struct Ws2812Esp32RmtDriverError;

impl Ws2812Esp32RmtDriverError {
    /// The text this error is shown as.
    pub fn to_string(&self) -> (text: String)
        ensures
            text@ == "mock Ws2812Esp32RmtDriverError"@,
    {
        "mock Ws2812Esp32RmtDriverError".to_owned()
    }
}

/// The recording stand-in for the low-level WS2812 ESP32 RMT driver.
pub struct Ws2812Esp32RmtDriver<'d> {
    /// Pixel binary array to be written
    pub pixel_data: Option<Vec<u8>>,
    /// Dummy phantom to take care of lifetime
    pub phantom: PhantomData<&'d Option<Vec<u8>>>,
}

impl<'d> Ws2812Esp32RmtDriver<'d> {
    /// The bytes of the frame that was last written, if any was.
    pub open spec fn written(&self) -> Option<Seq<u8>> {
        match self.pixel_data {
            Some(data) => Some(data@),
            None => None,
        }
    }

    /// Creates a driver that has written nothing yet.
    pub fn new() -> (r: Result<Self, Ws2812Esp32RmtDriverError>)
        ensures
            r matches Ok(driver) && driver.written() == None::<Seq<u8>>,
    {
        Ok(Self { pixel_data: None, phantom: PhantomData })
    }

    /// Writes a pixel-byte sequence.
    pub fn write_blocking(&mut self, pixel_sequence: &[u8]) -> (r: Result<
        (),
        Ws2812Esp32RmtDriverError,
    >)
        ensures
            r is Ok,
            final(self).written() == Some(pixel_sequence@),
    {
        self.pixel_data = Some(vstd::slice::slice_to_vec(pixel_sequence));
        Ok(())
    }

    /// Writes a pixel-byte sequence that is handed over to the driver.
    pub fn write(&mut self, pixel_sequence: Vec<u8>) -> (r: Result<(), Ws2812Esp32RmtDriverError>)
        ensures
            r is Ok,
            final(self).written() == Some(pixel_sequence@),
    {
        self.pixel_data = Some(pixel_sequence);
        Ok(())
    }
}

} // verus!
