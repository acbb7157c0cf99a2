//! A strip writer for the three-channel WS2812 alone.
//!
//! Every color is written as green, red, blue.

use crate::driver::mock::Ws2812Esp32RmtDriver;
use crate::lib_smart_leds::RGB8;
use crate::mock::esp_idf_sys::EspError;
use vstd::prelude::*;

verus! {

/// The bytes of the frame that shows the `colors`: green, red and blue of
/// each, one color after the other.
pub open spec fn grb_bytes(colors: Seq<RGB8>) -> Seq<u8> {
    Seq::new(
        3 * colors.len(),
        |i: int|
            if i % 3 == 0 {
                colors[i / 3].g
            } else if i % 3 == 1 {
                colors[i / 3].r
            } else {
                colors[i / 3].b
            },
    )
}

/// WS2812 strip writer.
pub struct Ws2812Esp32Rmt {
    pub driver: Ws2812Esp32RmtDriver<'static>,
}

impl Ws2812Esp32Rmt {
    /// Creates a writer for the strip on channel `channel_num` and pin
    /// `gpio_num`.  The recording driver binds neither, so the two numbers
    /// are not read.
    pub fn new(channel_num: u8, gpio_num: u32) -> (r: Result<Self, EspError>)
        ensures
            r matches Ok(leds) && leds.driver.written() == None::<Seq<u8>>,
    {
        match Ws2812Esp32RmtDriver::new() {
            Ok(driver) => Ok(Self { driver }),
            Err(_) => Err(EspError()),
        }
    }

    /// Writes the colors as one frame.
    pub fn write(&mut self, colors: &[RGB8]) -> (r: Result<(), EspError>)
        ensures
            r is Ok,
            final(self).driver.written() == Some(grb_bytes(colors@)),
    {
        let mut grb: Vec<u8> = Vec::new();
        let mut n: usize = 0;
        while n < colors.len()
            invariant
                n <= colors@.len(),
                grb@ == grb_bytes(colors@.take(n as int)),
            decreases colors@.len() - n,
        {
            let rgb = colors[n];
            grb.push(rgb.g);
            grb.push(rgb.r);
            grb.push(rgb.b);
            n = n + 1;
        }
        match self.driver.write(grb) {
            Ok(()) => Ok(()),
            Err(_) => Err(EspError()),
        }
    }
}

} // verus!
