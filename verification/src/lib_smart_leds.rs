//! Strip writer API: a sequence of logical colors written as one frame.

use crate::driver::color::{LedPixelColor, LedPixelColorGrb24, LedPixelColorImpl};
use crate::driver::esp32_rmt::counter_clock_encoder;
use crate::driver::{Ws2812Esp32RmtDriver, Ws2812Esp32RmtDriverError};
use crate::mock::esp_idf_hal::gpio::OutputPin;
use crate::mock::esp_idf_hal::peripheral::Peripheral;
use crate::mock::esp_idf_hal::rmt::{RmtChannel, TxRmtDriver};
use std::marker::PhantomData;
use vstd::prelude::*;
use vstd::std_specs::convert::FromSpec;

verus! {

/// 8-bit RGB
#[derive(Copy, Clone, Debug, Default, Eq, PartialEq, Hash, Structural)]
pub struct RGB8 {
    /// Red
    pub r: u8,
    /// Green
    pub g: u8,
    /// Blue
    pub b: u8,
}

impl RGB8 {
    /// Creates a color from its three channel values.
    pub fn new(r: u8, g: u8, b: u8) -> (c: Self)
        ensures
            c == (RGB8 { r, g, b }),
    {
        RGB8 { r, g, b }
    }
}

/// The value of a white channel.
#[derive(Copy, Clone, Debug, Default, Eq, PartialEq, Hash, Structural)]
pub struct White<C>(pub C);

/// 8-bit RGBW (RGB + white)
#[derive(Copy, Clone, Debug, Default, Eq, PartialEq, Hash, Structural)]
pub struct RGBW8 {
    /// Red
    pub r: u8,
    /// Green
    pub g: u8,
    /// Blue
    pub b: u8,
    /// White
    pub a: White<u8>,
}

impl<
    const N: usize,
    const R_ORDER: usize,
    const G_ORDER: usize,
    const B_ORDER: usize,
    const W_ORDER: usize,
> From<RGB8> for LedPixelColorImpl<N, R_ORDER, G_ORDER, B_ORDER, W_ORDER> {
    /// The device color with the red, green and blue of `x`, and white off.
    fn from(x: RGB8) -> (c: Self) {
        proof {
            Self::lemma_rgbw(x.r, x.g, x.b, 0);
        }
        Self::new_with_rgb(x.r, x.g, x.b)
    }
}

impl<
    const N: usize,
    const R_ORDER: usize,
    const G_ORDER: usize,
    const B_ORDER: usize,
    const W_ORDER: usize,
> vstd::std_specs::convert::FromSpecImpl<RGB8> for LedPixelColorImpl<N, R_ORDER, G_ORDER, B_ORDER, W_ORDER> {
    open spec fn obeys_from_spec() -> bool {
        true
    }

    open spec fn from_spec(x: RGB8) -> Self {
        Self::rgbw(x.r, x.g, x.b, 0)
    }
}

impl<
    const N: usize,
    const R_ORDER: usize,
    const G_ORDER: usize,
    const B_ORDER: usize,
    const W_ORDER: usize,
> From<RGBW8> for LedPixelColorImpl<N, R_ORDER, G_ORDER, B_ORDER, W_ORDER> {
    /// The device color with the red, green, blue and white of `x`.
    fn from(x: RGBW8) -> (c: Self) {
        proof {
            Self::lemma_rgbw(x.r, x.g, x.b, x.a.0);
        }
        Self::new_with_rgbw(x.r, x.g, x.b, x.a.0)
    }
}

impl<
    const N: usize,
    const R_ORDER: usize,
    const G_ORDER: usize,
    const B_ORDER: usize,
    const W_ORDER: usize,
> vstd::std_specs::convert::FromSpecImpl<RGBW8> for LedPixelColorImpl<N, R_ORDER, G_ORDER, B_ORDER, W_ORDER> {
    open spec fn obeys_from_spec() -> bool {
        true
    }

    open spec fn from_spec(x: RGBW8) -> Self {
        Self::rgbw(x.r, x.g, x.b, x.a.0)
    }
}

/// The bytes of the frame that shows the `colors`: the raw bytes of the
/// device color of each, one after the other.
pub open spec fn pixel_bytes<CSmart, CDev>(colors: Seq<CSmart>) -> Seq<u8> where
    CDev: LedPixelColor + From<CSmart>,

    decreases colors.len(),
{
    if colors.len() == 0 {
        Seq::empty()
    } else {
        pixel_bytes::<CSmart, CDev>(colors.drop_last()) + CDev::from_spec(colors.last()).bytes()
    }
}

/// Lays the `colors` out as the bytes of one frame.
pub fn collect_pixel_bytes<CSmart, CDev>(colors: &[CSmart]) -> (pixel_data: Vec<u8>) where
    CSmart: Copy,
    CDev: LedPixelColor + From<CSmart>,

    ensures
        CDev::obeys_from_spec() ==> pixel_data@ == pixel_bytes::<CSmart, CDev>(colors@),
{
    let mut pixel_data: Vec<u8> = Vec::new();
    let mut n: usize = 0;
    while n < colors.len()
        invariant
            n <= colors@.len(),
            CDev::obeys_from_spec() ==> pixel_data@ == pixel_bytes::<CSmart, CDev>(
                colors@.take(n as int),
            ),
        decreases colors@.len() - n,
    {
        let c = CDev::from(colors[n]);
        let run = c.as_ref();
        let ghost before = pixel_data@;
        let mut k: usize = 0;
        while k < run.len()
            invariant
                k <= run@.len(),
                pixel_data@ == before + run@.take(k as int),
            decreases run@.len() - k,
        {
            pixel_data.push(run[k]);
            k = k + 1;
        }
        proof {
            assert(colors@.take(n + 1).drop_last() =~= colors@.take(n as int));
        }
        n = n + 1;
    }
    assert(colors@.take(n as int) =~= colors@);
    pixel_data
}

/// ws2812-like smart led driver wrapper
///
/// This is a generalization to handle variants such as SK6812-RGBW 4-color LED.
/// Use [`Ws2812Esp32Rmt`] for typical RGB LED (WS2812B/SK6812) consisting of 8-bit GRB (total 24-bit pixel).
pub struct LedPixelEsp32Rmt<'d, CSmart, CDev> where CDev: LedPixelColor + From<CSmart> {
    /// The driver that frames are written to.
    pub driver: Ws2812Esp32RmtDriver<'d>,
    pub phantom: PhantomData<(CSmart, CDev)>,
}

impl<'d, CSmart, CDev> LedPixelEsp32Rmt<'d, CSmart, CDev> where
    CSmart: Copy,
    CDev: LedPixelColor + From<CSmart>,
 {
    /// Create a new driver wrapper.
    ///
    /// `channel` shall be different between different `pin`.
    pub fn new<C: RmtChannel>(
        channel: impl Peripheral<P = C> + 'd,
        pin: impl Peripheral<P = impl OutputPin> + 'd,
    ) -> (r: Result<Self, Ws2812Esp32RmtDriverError>)
        ensures
            r matches Ok(leds) && leds.driver.fresh(),
    {
        match Ws2812Esp32RmtDriver::<'d>::new(channel, pin) {
            Ok(driver) => Ok(Self { driver, phantom: PhantomData }),
            Err(e) => Err(e),
        }
    }

    /// Create a new driver wrapper with `TxRmtDriver`.
    ///
    /// The clock divider must be set to 1 for the `driver` configuration.
    pub fn new_with_rmt_driver(tx: TxRmtDriver<'d>) -> (r: Result<
        Self,
        Ws2812Esp32RmtDriverError,
    >)
        ensures
            r matches Ok(leds) && leds.driver.tx == tx && leds.driver.written() == None::<
                Seq<u8>,
            > && leds.driver.encoder == counter_clock_encoder(),
    {
        match Ws2812Esp32RmtDriver::<'d>::new_with_rmt_driver(tx) {
            Ok(driver) => Ok(Self { driver, phantom: PhantomData }),
            Err(e) => Err(e),
        }
    }

    /// Writes pixel data from a color sequence to the driver
    ///
    /// # Errors
    ///
    /// Returns an error if an RMT driver error occurred.
    pub fn write(&mut self, colors: &[CSmart]) -> (r: Result<(), Ws2812Esp32RmtDriverError>)
        ensures
            r is Err <==> old(self).driver.tx.fault,
            r is Err ==> *final(self) == *old(self),
            r is Ok ==> final(self).driver.written() is Some,
            final(self).driver.encoder == old(self).driver.encoder,
            CDev::obeys_from_spec() ==> Ws2812Esp32RmtDriver::write_post(
                old(self).driver,
                final(self).driver,
                pixel_bytes::<CSmart, CDev>(colors@),
                r,
            ),
    {
        let pixel_data = collect_pixel_bytes::<CSmart, CDev>(colors);
        self.driver.write_blocking(pixel_data.as_slice())
    }
}

impl<
    'd,
    CSmart,
    const N: usize,
    const R_ORDER: usize,
    const G_ORDER: usize,
    const B_ORDER: usize,
    const W_ORDER: usize,
> LedPixelEsp32Rmt<'d, CSmart, LedPixelColorImpl<N, R_ORDER, G_ORDER, B_ORDER, W_ORDER>> where
    CSmart: Copy,
    LedPixelColorImpl<N, R_ORDER, G_ORDER, B_ORDER, W_ORDER>: From<CSmart>,
 {
    /// Writes pixel data from a color sequence to the driver, reading each
    /// device color as the array it is
    ///
    /// # Errors
    ///
    /// Returns an error if an RMT driver error occurred.
    pub fn write_nocopy(&mut self, colors: &[CSmart]) -> (r: Result<
        (),
        Ws2812Esp32RmtDriverError,
    >)
        ensures
            r is Err <==> old(self).driver.tx.fault,
            r is Err ==> *final(self) == *old(self),
            r is Ok ==> final(self).driver.written() is Some,
            final(self).driver.encoder == old(self).driver.encoder,
            LedPixelColorImpl::<N, R_ORDER, G_ORDER, B_ORDER, W_ORDER>::obeys_from_spec()
                ==> Ws2812Esp32RmtDriver::write_post(
                old(self).driver,
                final(self).driver,
                pixel_bytes::<CSmart, LedPixelColorImpl<N, R_ORDER, G_ORDER, B_ORDER, W_ORDER>>(
                    colors@,
                ),
                r,
            ),
    {
        let mut pixel_data: Vec<u8> = Vec::new();
        let mut n: usize = 0;
        while n < colors.len()
            invariant
                n <= colors@.len(),
                LedPixelColorImpl::<N, R_ORDER, G_ORDER, B_ORDER, W_ORDER>::obeys_from_spec()
                    ==> pixel_data@ == pixel_bytes::<
                    CSmart,
                    LedPixelColorImpl<N, R_ORDER, G_ORDER, B_ORDER, W_ORDER>,
                >(colors@.take(n as int)),
            decreases colors@.len() - n,
        {
            let c = LedPixelColorImpl::<N, R_ORDER, G_ORDER, B_ORDER, W_ORDER>::from(colors[n]);
            let ghost before = pixel_data@;
            let mut k: usize = 0;
            while k < N
                invariant
                    k <= N,
                    pixel_data@ == before + c.0@.take(k as int),
                decreases N - k,
            {
                pixel_data.push(c.0[k]);
                k = k + 1;
            }
            proof {
                assert(colors@.take(n + 1).drop_last() =~= colors@.take(n as int));
            }
            n = n + 1;
        }
        assert(colors@.take(n as int) =~= colors@);
        self.driver.write_blocking(pixel_data.as_slice())
    }
}

/// 8-bit GRB (total 24-bit pixel) LED driver wrapper,
/// Typical RGB LED (WS2812B/SK6812) driver wrapper
pub type Ws2812Esp32Rmt<'d> = LedPixelEsp32Rmt<'d, RGB8, LedPixelColorGrb24>;

} // verus!
