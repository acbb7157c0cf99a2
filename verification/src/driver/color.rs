//! Device-dependent LED pixel colors.
//!
//! A device color is a fixed-width run of bytes.  Each of the four logical
//! channels (red, green, blue, white) is stored at a configurable byte
//! offset, or is absent when its offset lies outside the run.

use vstd::prelude::*;

verus! {

/// A channel value `v` scaled down to `(brightness + 1) / 256` of itself,
/// rounded towards zero.
pub open spec fn scaled(v: u8, brightness: u8) -> u8 {
    ((v as int) * (brightness as int + 1) / 256) as u8
}

/// The value stored for the channel at offset `order` in `bytes`:
/// the byte at that offset, or 0 when the channel is absent.
pub open spec fn channel_at(bytes: Seq<u8>, order: usize) -> u8 {
    if (order as int) < bytes.len() {
        bytes[order as int]
    } else {
        0
    }
}

/// Scales one channel value.
pub fn scale_channel(v: u8, brightness: u8) -> (s: u8)
    ensures
        s == scaled(v, brightness),
        s <= v,
{
    let factor: u16 = brightness as u16 + 1;
    assert(0 <= (v as int) * (factor as int) <= (v as int) * 256) by (nonlinear_arith)
        requires
            0 <= factor <= 256,
    ;
    let wide: u16 = (v as u16) * factor / 256;
    wide as u8
}

/// LED pixel color.
pub trait LedPixelColor: Ord + PartialOrd + Eq + PartialEq + Clone + Sync {
    /// Bytes per pixel, e.g. 3 for typical RGB.
    const BPP: usize;

    /// The raw bytes of the color, in the order they are sent to the device.
    spec fn bytes(&self) -> Seq<u8>;

    /// The raw bytes of the color made from the four channel values.
    spec fn layout(r: u8, g: u8, b: u8, w: u8) -> Seq<u8>;

    /// The red channel value held in the raw bytes.
    spec fn red(&self) -> u8;

    /// The green channel value held in the raw bytes.
    spec fn green(&self) -> u8;

    /// The blue channel value held in the raw bytes.
    spec fn blue(&self) -> u8;

    /// The white channel value held in the raw bytes.
    spec fn white(&self) -> u8;

    /// Creates with RGB (Red-Green-Blue) value.
    fn new_with_rgb(r: u8, g: u8, b: u8) -> (c: Self)
        ensures
            c.bytes() == Self::layout(r, g, b, 0),
            c.bytes().len() == Self::BPP,
    ;

    /// Creates with RGBW (Red-Green-Blue, and White) value.
    fn new_with_rgbw(r: u8, g: u8, b: u8, w: u8) -> (c: Self)
        ensures
            c.bytes() == Self::layout(r, g, b, w),
            c.bytes().len() == Self::BPP,
    ;

    /// Returns Red channel value
    fn r(&self) -> (v: u8)
        ensures
            v == self.red(),
    ;

    /// Returns Green channel value
    fn g(&self) -> (v: u8)
        ensures
            v == self.green(),
    ;

    /// Returns Blue channel value
    fn b(&self) -> (v: u8)
        ensures
            v == self.blue(),
    ;

    /// Returns White channel value
    fn w(&self) -> (v: u8)
        ensures
            v == self.white(),
    ;

    /// The raw bytes, borrowed.
    fn as_ref(&self) -> (s: &[u8])
        ensures
            s@ == self.bytes(),
            s@.len() == Self::BPP,
    ;

    /// The raw bytes, borrowed for writing.
    fn as_mut(&mut self) -> (s: &mut [u8])
        ensures
            s@ == old(self).bytes(),
            final(self).bytes() == final(s)@,
    ;

    /// Returns brightness-adjusted color.
    /// Each channel values of the returned shall be scaled down to `(brightness + 1) / 256`.
    fn brightness(&self, brightness: u8) -> (c: Self)
        ensures
            c.bytes() == Self::layout(
                scaled(self.red(), brightness),
                scaled(self.green(), brightness),
                scaled(self.blue(), brightness),
                scaled(self.white(), brightness),
            ),
            c.bytes().len() == Self::BPP,
    {
        Self::new_with_rgbw(
            scale_channel(self.r(), brightness),
            scale_channel(self.g(), brightness),
            scale_channel(self.b(), brightness),
            scale_channel(self.w(), brightness),
        )
    }
}

/// LED pixel color struct made with an `N`-length `u8` array.
///
/// * `N` - Byte per pixel. equals to `BPP`.
/// * `R_ORDER` - Index of the Red. Specify the value larger than `N - 1` if absent.
/// * `G_ORDER` - Index of the Green. Specify the value larger than `N - 1` if absent.
/// * `B_ORDER` - Index of the Blue. Specify the value larger than `N - 1` if absent.
/// * `W_ORDER` - Index of the White. Specify the value larger than `N - 1` if absent.
///
/// Equality and ordering compare the raw bytes.
#[derive(Ord, PartialOrd, Eq, PartialEq, Clone, Hash, Debug)]
pub struct LedPixelColorImpl<
    const N: usize,
    const R_ORDER: usize,
    const G_ORDER: usize,
    const B_ORDER: usize,
    const W_ORDER: usize,
>(pub [u8; N]);

impl<
    const N: usize,
    const R_ORDER: usize,
    const G_ORDER: usize,
    const B_ORDER: usize,
    const W_ORDER: usize,
> LedPixelColorImpl<N, R_ORDER, G_ORDER, B_ORDER, W_ORDER> {
    /// The byte at offset `i` of the color made from the four channel
    /// values.  Where two channels share an offset, the later one in the
    /// order red, green, blue, white is the one stored.
    pub open spec fn byte_at(i: int, r: u8, g: u8, b: u8, w: u8) -> u8 {
        if i == W_ORDER {
            w
        } else if i == B_ORDER {
            b
        } else if i == G_ORDER {
            g
        } else if i == R_ORDER {
            r
        } else {
            0
        }
    }

    /// No two channels that are present share a byte offset.
    pub open spec fn distinct_orders() -> bool {
        &&& R_ORDER < N ==> R_ORDER != G_ORDER && R_ORDER != B_ORDER && R_ORDER != W_ORDER
        &&& G_ORDER < N ==> G_ORDER != B_ORDER && G_ORDER != W_ORDER
        &&& B_ORDER < N ==> B_ORDER != W_ORDER
    }

    /// The color whose raw bytes are `bytes`.
    pub open spec fn with_bytes(bytes: Seq<u8>) -> Self {
        choose|c: Self| c.0@ == bytes
    }

    /// The color made from the four channel values.
    pub open spec fn rgbw(r: u8, g: u8, b: u8, w: u8) -> Self {
        Self::with_bytes(Self::layout(r, g, b, w))
    }

    /// Every byte that belongs to no channel is zero.
    pub open spec fn unused_bytes_zero(&self) -> bool {
        forall|i: int|
            0 <= i < N && i != R_ORDER && i != G_ORDER && i != B_ORDER && i != W_ORDER
                ==> self.0@[i] == 0
    }
}

impl<
    const N: usize,
    const R_ORDER: usize,
    const G_ORDER: usize,
    const B_ORDER: usize,
    const W_ORDER: usize,
> LedPixelColor for LedPixelColorImpl<N, R_ORDER, G_ORDER, B_ORDER, W_ORDER> {
    const BPP: usize = N;

    open spec fn bytes(&self) -> Seq<u8> {
        self.0@
    }

    open spec fn layout(r: u8, g: u8, b: u8, w: u8) -> Seq<u8> {
        Seq::new(N as nat, |i: int| Self::byte_at(i, r, g, b, w))
    }

    open spec fn red(&self) -> u8 {
        channel_at(self.0@, R_ORDER)
    }

    open spec fn green(&self) -> u8 {
        channel_at(self.0@, G_ORDER)
    }

    open spec fn blue(&self) -> u8 {
        channel_at(self.0@, B_ORDER)
    }

    open spec fn white(&self) -> u8 {
        channel_at(self.0@, W_ORDER)
    }

    #[inline]
    fn new_with_rgb(r: u8, g: u8, b: u8) -> (c: Self) {
        Self::new_with_rgbw(r, g, b, 0)
    }

    #[inline]
    fn new_with_rgbw(r: u8, g: u8, b: u8, w: u8) -> (c: Self) {
        let mut array = [0u8; N];
        assert(array == vstd::array::spec_array_fill_for_copy_type::<u8, N>(0u8));
        if R_ORDER < N {
            array[R_ORDER] = r;
        }
        if G_ORDER < N {
            array[G_ORDER] = g;
        }
        if B_ORDER < N {
            array[B_ORDER] = b;
        }
        if W_ORDER < N {
            array[W_ORDER] = w;
        }
        Self(array)
    }

    #[inline]
    fn r(&self) -> (v: u8) {
        if R_ORDER < N {
            self.0[R_ORDER]
        } else {
            0
        }
    }

    #[inline]
    fn g(&self) -> (v: u8) {
        if G_ORDER < N {
            self.0[G_ORDER]
        } else {
            0
        }
    }

    #[inline]
    fn b(&self) -> (v: u8) {
        if B_ORDER < N {
            self.0[B_ORDER]
        } else {
            0
        }
    }

    #[inline]
    fn w(&self) -> (v: u8) {
        if W_ORDER < N {
            self.0[W_ORDER]
        } else {
            0
        }
    }

    fn as_ref(&self) -> (s: &[u8]) {
        &self.0
    }

    fn as_mut(&mut self) -> (s: &mut [u8]) {
        &mut self.0
    }
}

impl<
    const N: usize,
    const R_ORDER: usize,
    const G_ORDER: usize,
    const B_ORDER: usize,
    const W_ORDER: usize,
> Default for LedPixelColorImpl<N, R_ORDER, G_ORDER, B_ORDER, W_ORDER> {
    /// Returns the black color (All LED OFF)
    #[inline]
    fn default() -> (c: Self)
        ensures
            c.bytes() == Seq::new(N as nat, |i: int| 0u8),
    {
        let array = [0u8; N];
        Self(array)
    }
}

/// Scaling by the maximum brightness keeps a channel value, and scaling by
/// brightness 0 turns every channel value into 0.
pub proof fn lemma_scaled_extremes(v: u8)
    ensures
        scaled(v, 255) == v,
        scaled(v, 0) == 0,
{
    assert((v as int) * (255 + 1) / 256 == v as int) by (nonlinear_arith);
    assert((v as int) * (0 + 1) / 256 == 0) by (nonlinear_arith)
        requires
            0 <= v < 256,
    ;
}

impl<
    const N: usize,
    const R_ORDER: usize,
    const G_ORDER: usize,
    const B_ORDER: usize,
    const W_ORDER: usize,
> LedPixelColorImpl<N, R_ORDER, G_ORDER, B_ORDER, W_ORDER> {
    /// The bytes per pixel are the `N` of the type.
    pub proof fn lemma_bpp()
        ensures
            <Self as LedPixelColor>::BPP == N,
    {
    }

    /// An array that agrees with `bytes` on its first `k` entries.
    proof fn lemma_array_with_prefix(bytes: Seq<u8>, k: nat) -> (a: [u8; N])
        requires
            bytes.len() == N,
            k <= N,
        ensures
            forall|i: int| 0 <= i < k ==> a@[i] == bytes[i],
        decreases k,
    {
        broadcast use vstd::array::group_array_axioms;

        if k == 0 {
            vstd::array::spec_array_fill_for_copy_type::<u8, N>(0u8)
        } else {
            let a = Self::lemma_array_with_prefix(bytes, (k - 1) as nat);
            vstd::array::spec_array_update(a, k - 1, bytes[k - 1])
        }
    }

    /// For every run of `N` bytes there is exactly one color with these raw
    /// bytes.
    pub proof fn lemma_with_bytes(bytes: Seq<u8>)
        requires
            bytes.len() == N,
        ensures
            Self::with_bytes(bytes).bytes() == bytes,
            forall|c: Self| c.bytes() == bytes ==> c == Self::with_bytes(bytes),
    {
        let a = Self::lemma_array_with_prefix(bytes, N as nat);
        let witness = LedPixelColorImpl::<N, R_ORDER, G_ORDER, B_ORDER, W_ORDER>(a);
        assert(witness.0@ =~= bytes);
        assert forall|c: Self| c.bytes() == bytes implies c == Self::with_bytes(bytes) by {
            assert(c.0 =~= Self::with_bytes(bytes).0);
        }
    }

    /// The color made from the four channel values has the raw bytes of
    /// the layout, and it is what the constructors return.
    pub proof fn lemma_rgbw(r: u8, g: u8, b: u8, w: u8)
        ensures
            Self::rgbw(r, g, b, w).bytes() == Self::layout(r, g, b, w),
            forall|c: Self|
                c.bytes() == Self::layout(r, g, b, w) ==> c == Self::rgbw(r, g, b, w),
    {
        Self::lemma_with_bytes(Self::layout(r, g, b, w));
    }

    /// A channel whose offset lies outside the `N` bytes reads as 0 in every
    /// color.
    pub proof fn lemma_absent_channel_reads_zero(c: Self)
        ensures
            R_ORDER >= N ==> c.red() == 0,
            G_ORDER >= N ==> c.green() == 0,
            B_ORDER >= N ==> c.blue() == 0,
            W_ORDER >= N ==> c.white() == 0,
    {
    }

    /// Channel round trip: in a color `c` made from the channel values
    /// `r`, `g`, `b`, `w` under a layout whose present channels have distinct
    /// offsets, every present channel reads back the value it was made from,
    /// and every absent channel reads back 0.
    pub proof fn lemma_channel_round_trip(c: Self, r: u8, g: u8, b: u8, w: u8)
        requires
            Self::distinct_orders(),
            c.bytes() == Self::layout(r, g, b, w),
        ensures
            c.red() == if R_ORDER < N { r } else { 0 },
            c.green() == if G_ORDER < N { g } else { 0 },
            c.blue() == if B_ORDER < N { b } else { 0 },
            c.white() == if W_ORDER < N { w } else { 0 },
    {
    }

    /// The color made from the channel values has zeros wherever no channel
    /// is stored.
    pub proof fn lemma_layout_unused_bytes_zero(c: Self, r: u8, g: u8, b: u8, w: u8)
        requires
            c.bytes() == Self::layout(r, g, b, w),
        ensures
            c.unused_bytes_zero(),
    {
    }

    /// Brightness identity: scaling a color by brightness 255 gives back the
    /// same raw bytes, for every color whose bytes outside the channels are
    /// zero; and it gives back the same channel values for every color.
    pub proof fn lemma_brightness_max_is_identity(c: Self, d: Self)
        requires
            d.bytes() == Self::layout(
                scaled(c.red(), 255),
                scaled(c.green(), 255),
                scaled(c.blue(), 255),
                scaled(c.white(), 255),
            ),
        ensures
            d.red() == c.red(),
            d.green() == c.green(),
            d.blue() == c.blue(),
            d.white() == c.white(),
            c.unused_bytes_zero() ==> d == c,
    {
        lemma_scaled_extremes(c.red());
        lemma_scaled_extremes(c.green());
        lemma_scaled_extremes(c.blue());
        lemma_scaled_extremes(c.white());
        if c.unused_bytes_zero() {
            assert(d.0 =~= c.0);
        }
    }

    /// Brightness zeroing: scaling any color by brightness 0 gives the color
    /// whose bytes, and so whose channels, are all 0.
    pub proof fn lemma_brightness_zero_is_black(c: Self, d: Self)
        requires
            d.bytes() == Self::layout(
                scaled(c.red(), 0),
                scaled(c.green(), 0),
                scaled(c.blue(), 0),
                scaled(c.white(), 0),
            ),
        ensures
            d.bytes() == Seq::new(N as nat, |i: int| 0u8),
            d.red() == 0,
            d.green() == 0,
            d.blue() == 0,
            d.white() == 0,
    {
        lemma_scaled_extremes(c.red());
        lemma_scaled_extremes(c.green());
        lemma_scaled_extremes(c.blue());
        lemma_scaled_extremes(c.white());
    }
}

/// 24bit GRB LED pixel color (Typical RGB LED (WS2812B/SK6812) pixel color)
pub type LedPixelColorGrb24 = LedPixelColorImpl<3, 1, 0, 2, 255>;

/// 32bit RGBW LED pixel color
pub type LedPixelColorRgbw32 = LedPixelColorImpl<4, 0, 1, 2, 3>;

/// 32bit GRBW LED pixel color
pub type LedPixelColorGrbw32 = LedPixelColorImpl<4, 1, 0, 2, 3>;

} // verus!
