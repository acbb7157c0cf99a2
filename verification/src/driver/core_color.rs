//! Pixel colors with a fixed byte order.
//!
//! The two layouts that the common LED pixels take: green, red, blue for
//! the three-channel WS2812, and red, green, blue, white for the
//! four-channel SK6812.

use vstd::prelude::*;

verus! {

/// LED pixel color with a fixed byte order.
pub trait LedPixelColor: Ord + PartialOrd + Eq + PartialEq + Clone {
    /// Bytes per pixel.
    const BPP: usize;

    /// The raw bytes of the color, in the order they are sent to the device.
    spec fn bytes(&self) -> Seq<u8>;

    /// The raw bytes of the color made from red, green and blue, with
    /// every other channel off.
    spec fn layout(r: u8, g: u8, b: u8) -> Seq<u8>;

    /// Creates with RGB (Red-Green-Blue) value.
    fn new_with_rgb(r: u8, g: u8, b: u8) -> (c: Self)
        ensures
            c.bytes() == Self::layout(r, g, b),
            c.bytes().len() == Self::BPP,
    ;

    /// Creates with RGBW (Red-Green-Blue, and White) value.  A color
    /// without a white channel drops `w`.
    fn new_with_rgbw(r: u8, g: u8, b: u8, _w: u8) -> (c: Self)
        ensures
            c.bytes().len() == Self::BPP,
        default_ensures
            c.bytes() == Self::layout(r, g, b),
    {
        Self::new_with_rgb(r, g, b)
    }

    /// The raw bytes, borrowed.
    fn as_ref(&self) -> (s: &[u8])
        ensures
            s@ == self.bytes(),
            s@.len() == Self::BPP,
    ;

    /// The raw bytes, borrowed for writing.
    fn as_mut(&mut self) -> (s: &mut [u8])
        ensures
            s@ == old(self).bytes(),
            final(self).bytes() == final(s)@,
    ;
}

/// 24bit GRB LED pixel color of the WS2812.
#[derive(Ord, PartialOrd, Eq, PartialEq, Hash, Clone, Default, Debug)]
pub struct Ws2812Grb24Color(pub [u8; 3]);

impl LedPixelColor for Ws2812Grb24Color {
    const BPP: usize = 3;

    open spec fn bytes(&self) -> Seq<u8> {
        self.0@
    }

    open spec fn layout(r: u8, g: u8, b: u8) -> Seq<u8> {
        seq![g, r, b]
    }

    #[inline]
    fn new_with_rgb(r: u8, g: u8, b: u8) -> (c: Self) {
        let c = Self([g, r, b]);
        c
    }

    #[inline]
    fn as_ref(&self) -> (s: &[u8]) {
        &self.0
    }

    #[inline]
    fn as_mut(&mut self) -> (s: &mut [u8]) {
        &mut self.0
    }
}

impl Ws2812Grb24Color {
    /// The color takes three bytes.
    pub proof fn lemma_bpp()
        ensures
            <Self as LedPixelColor>::BPP == 3,
    {
    }
}

/// 32bit RGBW LED pixel color of the SK6812.
#[derive(Ord, PartialOrd, Eq, PartialEq, Hash, Clone, Default, Debug)]
pub struct Sk6812Rgbw32Color(pub [u8; 4]);

impl LedPixelColor for Sk6812Rgbw32Color {
    const BPP: usize = 4;

    open spec fn bytes(&self) -> Seq<u8> {
        self.0@
    }

    open spec fn layout(r: u8, g: u8, b: u8) -> Seq<u8> {
        seq![r, g, b, 0u8]
    }

    #[inline]
    fn new_with_rgb(r: u8, g: u8, b: u8) -> (c: Self) {
        Self::new_with_rgbw(r, g, b, 0)
    }

    #[inline]
    fn new_with_rgbw(r: u8, g: u8, b: u8, w: u8) -> (c: Self)
        ensures
            c.bytes() == seq![r, g, b, w],
    {
        let c = Self([r, g, b, w]);
        c
    }

    #[inline]
    fn as_ref(&self) -> (s: &[u8]) {
        &self.0
    }

    #[inline]
    fn as_mut(&mut self) -> (s: &mut [u8]) {
        &mut self.0
    }
}

impl Sk6812Rgbw32Color {
    /// The color takes four bytes.
    pub proof fn lemma_bpp()
        ensures
            <Self as LedPixelColor>::BPP == 4,
    {
    }
}

} // verus!
