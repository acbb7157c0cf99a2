//! Draw target API: a frame buffer addressed by points.
//!
//! Pixels are drawn into a byte buffer, in the color layout of the device
//! and scaled by the brightness of the target.  `flush()` hands the buffer
//! to the driver, and only when something was drawn since the last flush.

use crate::driver::color::{scaled, LedPixelColor, LedPixelColorGrb24, LedPixelColorImpl};
use crate::driver::{Ws2812Esp32RmtDriver, Ws2812Esp32RmtDriverError};
use crate::mock::esp_idf_hal::gpio::OutputPin;
use crate::mock::esp_idf_hal::peripheral::Peripheral;
use crate::mock::esp_idf_hal::rmt::RmtChannel;
use crate::pixel_data::{zeros, LedPixelData};
use std::marker::PhantomData;
use vstd::prelude::*;
use vstd::std_specs::convert::FromSpec;

verus! {

/// A point of the drawing plane.
#[derive(Copy, Clone, Eq, PartialEq, Hash, Debug, Default, Structural)]
pub struct Point {
    /// The x coordinate.
    pub x: i32,
    /// The y coordinate.
    pub y: i32,
}

impl Point {
    /// Creates a point from X and Y coordinates.
    pub fn new(x: i32, y: i32) -> (p: Self)
        ensures
            p == (Point { x, y }),
    {
        Point { x, y }
    }
}

/// A width and a height, in pixels.
#[derive(Copy, Clone, Eq, PartialEq, Hash, Debug, Default, Structural)]
pub struct Size {
    /// The width.
    pub width: u32,
    /// The height.
    pub height: u32,
}

impl Size {
    /// Creates a size from a width and a height.
    pub fn new(width: u32, height: u32) -> (s: Self)
        ensures
            s == (Size { width, height }),
    {
        Size { width, height }
    }
}

/// A 24-bit logical color: red, green and blue, 8 bits each.
#[derive(Copy, Clone, Eq, PartialEq, Hash, Debug, Default, Structural)]
pub struct Rgb888 {
    pub r: u8,
    pub g: u8,
    pub b: u8,
}

impl Rgb888 {
    /// Creates a color from its three channel values.
    pub fn new(r: u8, g: u8, b: u8) -> (c: Self)
        ensures
            c == (Rgb888 { r, g, b }),
    {
        Rgb888 { r, g, b }
    }

    /// Returns the red channel value.
    pub fn r(&self) -> (v: u8)
        ensures
            v == self.r,
    {
        self.r
    }

    /// Returns the green channel value.
    pub fn g(&self) -> (v: u8)
        ensures
            v == self.g,
    {
        self.g
    }

    /// Returns the blue channel value.
    pub fn b(&self) -> (v: u8)
        ensures
            v == self.b,
    {
        self.b
    }
}

/// A point together with the color to give it.
#[derive(Copy, Clone, Eq, PartialEq, Hash, Debug, Default)]
pub struct Pixel<C>(pub Point, pub C);

/// Whether `point` lies in the rectangle of `size` whose corner is the
/// origin.
pub open spec fn in_bounds(point: Point, size: Size) -> bool {
    0 <= point.x < size.width && 0 <= point.y < size.height
}

/// The number of pixels in a rectangle of `size`.
pub open spec fn pixel_count(size: Size) -> int {
    size.width * size.height
}

/// LED pixel shape
pub trait LedPixelShape {
    /// The number of pixels
    const PIXEL_LEN: usize;

    /// The dimensions of the shape fit the integers they are counted in.
    spec fn fits() -> bool;

    /// Physical size of the LED pixel equipment.
    spec fn spec_size() -> Size;

    /// The index of the pixel at `point`, or `None` where the shape has no
    /// pixel there.
    spec fn spec_pixel_index(point: Point) -> Option<usize>;

    /// In a shape that fits, the number of pixels fits `usize`, and
    /// `PIXEL_LEN` is that number.
    proof fn lemma_pixel_count_fits()
        requires
            Self::fits(),
        ensures
            pixel_count(Self::spec_size()) <= usize::MAX,
            Self::PIXEL_LEN == pixel_count(Self::spec_size()),
    ;

    /// The shape has pixels only at points inside the rectangle of its
    /// size, and their indices are below the number of pixels.
    proof fn lemma_pixel_index_in_bounds(point: Point)
        requires
            Self::fits(),
        ensures
            Self::spec_pixel_index(point) matches Some(index) ==> in_bounds(
                point,
                Self::spec_size(),
            ) && index < pixel_count(Self::spec_size()),
    ;

    /// Returns the number of pixels
    fn pixel_len() -> (n: usize)
        requires
            Self::fits(),
        ensures
            n == pixel_count(Self::spec_size()),
    {
        proof {
            Self::lemma_pixel_count_fits();
        }
        let size = Self::size();
        assert(0 <= (size.width as int) * (size.height as int) == pixel_count(size))
            by (nonlinear_arith)
            requires
                pixel_count(size) == size.width * size.height,
        ;
        (size.width as usize) * (size.height as usize)
    }

    /// Physical size of the LED pixel equipment.
    fn size() -> (s: Size)
        requires
            Self::fits(),
        ensures
            s == Self::spec_size(),
    ;

    /// Convert from `point` to the index.
    /// Returns `None` if it is out of the bounds.
    fn pixel_index(point: Point) -> (r: Option<usize>)
        requires
            Self::fits(),
        ensures
            r == Self::spec_pixel_index(point),
            r matches Some(index) ==> in_bounds(point, Self::spec_size()) && index < pixel_count(
                Self::spec_size(),
            ),
    ;
}

/// LED pixel shape of `W`x`H` matrix
pub struct LedPixelMatrix<const W: usize, const H: usize> {

}

impl<const W: usize, const H: usize> LedPixelShape for LedPixelMatrix<W, H> {
    const PIXEL_LEN: usize = W * H;

    open spec fn fits() -> bool {
        W <= u32::MAX && H <= u32::MAX && W * H <= usize::MAX
    }

    open spec fn spec_size() -> Size {
        Size { width: W as u32, height: H as u32 }
    }

    open spec fn spec_pixel_index(point: Point) -> Option<usize> {
        if 0 <= point.x < W && 0 <= point.y < H {
            Some((point.x + point.y * W) as usize)
        } else {
            None
        }
    }

    proof fn lemma_pixel_count_fits() {
    }

    proof fn lemma_pixel_index_in_bounds(point: Point) {
        if 0 <= point.x < W && 0 <= point.y < H {
            assert(0 <= point.x + point.y * W < W * H) by (nonlinear_arith)
                requires
                    0 <= point.x < W,
                    0 <= point.y < H,
            ;
        }
    }

    #[inline]
    fn size() -> (s: Size) {
        Size::new(W as u32, H as u32)
    }

    #[inline]
    fn pixel_len() -> (n: usize) {
        Self::PIXEL_LEN
    }

    fn pixel_index(point: Point) -> (r: Option<usize>) {
        if point.x >= 0 && point.y >= 0 {
            let x = point.x as usize;
            let y = point.y as usize;
            if x < W && y < H {
                assert(0 <= x + y * W < W * H) by (nonlinear_arith)
                    requires
                        0 <= x < W,
                        0 <= y < H,
                ;
                Some(x + y * W)
            } else {
                None
            }
        } else {
            None
        }
    }
}

impl<const W: usize, const H: usize> LedPixelMatrix<W, H> {
    /// In a matrix that fits, the number of pixels is the width times the
    /// height.
    pub proof fn lemma_pixel_len()
        requires
            <Self as LedPixelShape>::fits(),
        ensures
            <Self as LedPixelShape>::PIXEL_LEN == W * H,
    {
    }
}

/// LED pixel shape of `L`-led strip
pub type LedPixelStrip<const L: usize> = LedPixelMatrix<L, 1>;

/// Default data storage type for `LedPixelDrawTarget`.
pub type LedPixelDrawTargetData = Vec<u8>;

/// `data` with the bytes of `run` written over it from `offset` on.
pub open spec fn overwritten(data: Seq<u8>, offset: int, run: Seq<u8>) -> Seq<u8> {
    Seq::new(
        data.len(),
        |i: int|
            if offset <= i < offset + run.len() {
                run[i - offset]
            } else {
                data[i]
            },
    )
}

/// `len` bytes that repeat `run` from its start: the byte at offset `i` is
/// the byte of `run` at offset `i` modulo the length of `run`.
pub open spec fn filled(len: nat, run: Seq<u8>) -> Seq<u8> {
    Seq::new(len, |i: int| run[i % (run.len() as int)])
}

/// The raw bytes that the logical color `color` is stored as under
/// `brightness`: the device color made from `color`, every channel of it
/// scaled.
pub open spec fn device_bytes<CDraw, CDev>(color: CDraw, brightness: u8) -> Seq<u8> where
    CDev: LedPixelColor + From<CDraw>,
 {
    let c = CDev::from_spec(color);
    CDev::layout(
        scaled(c.red(), brightness),
        scaled(c.green(), brightness),
        scaled(c.blue(), brightness),
        scaled(c.white(), brightness),
    )
}

/// The buffer `data` after `pixel` is drawn into it: unchanged where the
/// shape has no pixel at that point, else with the bytes of the color
/// written at the pixel.
pub open spec fn drawn<CDraw, CDev, S>(data: Seq<u8>, pixel: Pixel<CDraw>, brightness: u8) -> Seq<
    u8,
> where CDev: LedPixelColor + From<CDraw>, S: LedPixelShape {
    match S::spec_pixel_index(pixel.0) {
        Some(index) => overwritten(
            data,
            index * CDev::BPP,
            device_bytes::<CDraw, CDev>(pixel.1, brightness),
        ),
        None => data,
    }
}

/// The buffer `data` after the `pixels` are drawn into it, first to last.
pub open spec fn drawn_all<CDraw, CDev, S>(
    data: Seq<u8>,
    pixels: Seq<Pixel<CDraw>>,
    brightness: u8,
) -> Seq<u8> where CDev: LedPixelColor + From<CDraw>, S: LedPixelShape
    decreases pixels.len(),
{
    if pixels.len() == 0 {
        data
    } else {
        drawn::<CDraw, CDev, S>(
            drawn_all::<CDraw, CDev, S>(data, pixels.drop_last(), brightness),
            pixels.last(),
            brightness,
        )
    }
}

/// Whether the shape has a pixel at the point of one of the `pixels`.
pub open spec fn any_mapped<CDraw, S: LedPixelShape>(pixels: Seq<Pixel<CDraw>>) -> bool {
    exists|k: int| 0 <= k < pixels.len() && S::spec_pixel_index(#[trigger] pixels[k].0) is Some
}

/// Target for drawing operations of the LED pixels.
///
/// This is a generalization for the future extension.
/// Use [`Ws2812DrawTarget`] for typical RGB LED (WS2812B/SK6812) consisting of 8-bit GRB (total 24-bit pixel).
///
/// * `CDraw` - color type for drawing operations
/// * `CDev` - the LED pixel color type (device dependant). It shall be convertible from `CDraw`.
/// * `S` - the LED pixel shape
/// * `Data` - (optional) data storage type. It shall be `Vec`-like struct.
///
/// [`flush()`] operation shall be required to write changes from a framebuffer to the display.
///
/// [`flush()`]: #method.flush
pub struct LedPixelDrawTarget<'d, CDraw, CDev, S, Data = LedPixelDrawTargetData> where
    CDraw: Copy,
    CDev: LedPixelColor + From<CDraw>,
    S: LedPixelShape,
    Data: LedPixelData,
 {
    /// The driver that frames are flushed to.
    pub driver: Ws2812Esp32RmtDriver<'d>,
    /// The frame buffer: the raw bytes of every pixel, in the order of the
    /// pixel indices.
    pub data: Data,
    /// The brightness that colors are scaled by when they are drawn.
    pub brightness: u8,
    /// Whether the frame buffer was written since the last flush.
    pub changed: bool,
    pub _phantom: PhantomData<(CDraw, CDev, S, Data)>,
}

impl<'d, CDraw, CDev, S, Data> LedPixelDrawTarget<'d, CDraw, CDev, S, Data> where
    CDraw: Copy,
    CDev: LedPixelColor + From<CDraw>,
    S: LedPixelShape,
    Data: LedPixelData,
 {
    /// The number of bytes of the frame buffer: one device color for each
    /// pixel of the shape.
    pub open spec fn buffer_len() -> int {
        pixel_count(S::spec_size()) * CDev::BPP
    }

    /// A frame buffer of this shape and color can be made in this storage.
    pub open spec fn buffer_fits() -> bool {
        &&& S::fits()
        &&& Self::buffer_len() <= usize::MAX
        &&& Self::buffer_len() <= Data::max_len()
    }

    /// The frame buffer holds one device color for each pixel of the shape.
    pub open spec fn wf(&self) -> bool {
        &&& S::fits()
        &&& self.data.bytes().len() == Self::buffer_len()
    }

    /// The number of frames that `flush()` hands to the driver in this
    /// state: one if the buffer was written since the last flush, else
    /// none.
    pub open spec fn pending_frames(&self) -> nat {
        if self.changed {
            1
        } else {
            0
        }
    }

    /// How the state `post` after a `flush()` relates to the state `pre`
    /// before it, given what the flush returned.
    ///
    /// A clean target is left as it is.  A dirty target hands its buffer
    /// to the driver; if the driver takes it, the target is clean, and if
    /// the driver fails, the target stays as it was, dirty, so that the
    /// flush can be tried again.
    pub open spec fn flush_post(
        pre: Self,
        post: Self,
        r: Result<(), Ws2812Esp32RmtDriverError>,
    ) -> bool {
        &&& r is Err <==> pre.pending_frames() == 1 && pre.driver.tx.fault
        &&& r is Err ==> post == pre
        &&& r is Ok ==> {
            &&& post.data == pre.data
            &&& post.brightness == pre.brightness
            &&& !post.changed
            &&& pre.pending_frames() == 1 ==> Ws2812Esp32RmtDriver::write_post(
                pre.driver,
                post.driver,
                pre.data.bytes(),
                r,
            )
            &&& pre.pending_frames() == 0 ==> post.driver == pre.driver
        }
    }

    /// How the target `post` after a draw of `pixel` relates to the target
    /// `pre` before it.  Where the shape has no pixel at the point, as at
    /// every point outside its rectangle, the two are the same; else the
    /// bytes of the color are written at the pixel and the target is dirty.
    pub open spec fn draw_post(pre: Self, post: Self, pixel: Pixel<CDraw>) -> bool {
        &&& post.wf()
        &&& post.brightness == pre.brightness
        &&& post.driver == pre.driver
        &&& post.changed == (pre.changed || S::spec_pixel_index(pixel.0) is Some)
        &&& S::spec_pixel_index(pixel.0) is None ==> post == pre
        &&& !in_bounds(pixel.0, S::spec_size()) ==> post == pre
        &&& CDev::obeys_from_spec() ==> post.data.bytes() == drawn::<CDraw, CDev, S>(
            pre.data.bytes(),
            pixel,
            pre.brightness,
        )
    }

    /// How the target `post` after a draw of the `pixels` relates to the
    /// target `pre` before it.  Where the shape has a pixel at none of the
    /// points, the two are the same; else the pixels are drawn first to
    /// last and the target is dirty.
    pub open spec fn draw_iter_post(pre: Self, post: Self, pixels: Seq<Pixel<CDraw>>) -> bool {
        &&& post.wf()
        &&& post.brightness == pre.brightness
        &&& post.driver == pre.driver
        &&& post.changed == (pre.changed || any_mapped::<CDraw, S>(pixels))
        &&& !any_mapped::<CDraw, S>(pixels) ==> post == pre
        &&& CDev::obeys_from_spec() ==> post.data.bytes() == drawn_all::<CDraw, CDev, S>(
            pre.data.bytes(),
            pixels,
            pre.brightness,
        )
    }

    /// How the target `post` after it was filled with `color` relates to
    /// the target `pre` before it: the buffer repeats the bytes of the
    /// color, and the target is dirty.
    pub open spec fn clear_post(pre: Self, post: Self, color: CDraw) -> bool {
        &&& post.wf()
        &&& post.changed
        &&& post.brightness == pre.brightness
        &&& post.driver == pre.driver
        &&& CDev::obeys_from_spec() ==> post.data.bytes() == filled(
            Self::buffer_len() as nat,
            device_bytes::<CDraw, CDev>(color, pre.brightness),
        )
    }

    /// Create a new draw target.
    ///
    /// `channel` shall be different between different `pin`.
    pub fn new<C: RmtChannel>(
        channel: impl Peripheral<P = C> + 'd,
        pin: impl Peripheral<P = impl OutputPin> + 'd,
    ) -> (r: Result<Self, Ws2812Esp32RmtDriverError>)
        requires
            Self::buffer_fits(),
        ensures
            r matches Ok(target) && target.wf() && target.data.bytes() == zeros(
                Self::buffer_len() as nat,
            ) && target.brightness == u8::MAX && target.changed && target.driver.fresh(),
    {
        match Ws2812Esp32RmtDriver::<'d>::new(channel, pin) {
            Ok(driver) => {
                let pixel_len = S::pixel_len();
                assert(0 <= pixel_len * CDev::BPP == Self::buffer_len()) by (nonlinear_arith)
                    requires
                        Self::buffer_len() == pixel_len * CDev::BPP,
                        pixel_len >= 0,
                        CDev::BPP >= 0,
                ;
                let data = Data::zeroed(pixel_len * CDev::BPP);
                Ok(Self { driver, data, brightness: u8::MAX, changed: true, _phantom: PhantomData })
            },
            Err(e) => Err(e),
        }
    }

    /// Set maximum brightness.
    /// Each channel values of the returned shall be scaled down to `(brightness + 1) / 256`.
    ///
    /// The bytes already in the frame buffer stay as they are: the new
    /// brightness holds for what is drawn from now on.
    #[inline]
    pub fn set_brightness(&mut self, brightness: u8)
        ensures
            final(self).brightness == brightness,
            final(self).changed,
            final(self).data == old(self).data,
            final(self).driver == old(self).driver,
    {
        self.brightness = brightness;
        self.changed = true;
    }

    /// Returns maximum brightness.
    #[inline]
    pub fn brightness(&self) -> (level: u8)
        ensures
            level == self.brightness,
    {
        self.brightness
    }

    /// Physical size of the LED pixel equipment.
    #[inline]
    pub fn size(&self) -> (s: Size)
        requires
            S::fits(),
        ensures
            s == S::spec_size(),
    {
        S::size()
    }

    /// Clear with black.
    /// Same operation as `clear(black_color)`.
    pub fn clear_with_black(&mut self) -> (r: Result<(), Ws2812Esp32RmtDriverError>)
        ensures
            r is Ok,
            final(self).data.bytes() == zeros(old(self).data.bytes().len()),
            final(self).changed,
            final(self).brightness == old(self).brightness,
            final(self).driver == old(self).driver,
    {
        let len = self.data.as_bytes().len();
        let mut index: usize = 0;
        while index < len
            invariant
                index <= len,
                len == self.data.bytes().len(),
                forall|i: int| 0 <= i < index ==> self.data.bytes()[i] == 0,
                self.changed == old(self).changed,
                self.brightness == old(self).brightness,
                self.driver == old(self).driver,
                len == old(self).data.bytes().len(),
            decreases len - index,
        {
            self.data.set_byte(index, 0);
            index = index + 1;
        }
        self.changed = true;
        Ok(())
    }

    /// Write changes from a framebuffer to the LED pixels
    ///
    /// The buffer is handed to the driver only if it was written since the
    /// last flush.
    pub fn flush(&mut self) -> (r: Result<(), Ws2812Esp32RmtDriverError>)
        ensures
            Self::flush_post(*old(self), *final(self), r),
    {
        if self.changed {
            match self.driver.write_blocking(self.data.as_bytes()) {
                Ok(()) => {},
                Err(e) => {
                    return Err(e);
                },
            }
            self.changed = false;
        }
        Ok(())
    }

    /// Draws one pixel.
    ///
    /// Where the shape has no pixel at the point, nothing changes.
    pub fn draw(&mut self, pixel: Pixel<CDraw>)
        requires
            old(self).wf(),
        ensures
            Self::draw_post(*old(self), *final(self), pixel),
    {
        let Pixel(point, color) = pixel;
        if let Some(pixel_index) = S::pixel_index(point) {
            let color_device = CDev::from(color).brightness(self.brightness);
            let run = color_device.as_ref();
            let len = self.data.as_bytes().len();
            assert(0 <= pixel_index * CDev::BPP && pixel_index * CDev::BPP + CDev::BPP
                <= Self::buffer_len()) by (nonlinear_arith)
                requires
                    0 <= pixel_index < pixel_count(S::spec_size()),
                    Self::buffer_len() == pixel_count(S::spec_size()) * CDev::BPP,
                    CDev::BPP >= 0,
            ;
            let index = pixel_index * CDev::BPP;
            let mut offset: usize = 0;
            while offset < run.len()
                invariant
                    offset <= run@.len(),
                    run@.len() == CDev::BPP,
                    index + CDev::BPP <= self.data.bytes().len() == len,
                    self.data.bytes() == overwritten(
                        old(self).data.bytes(),
                        index as int,
                        run@.take(offset as int),
                    ),
                    self.changed == old(self).changed,
                    self.brightness == old(self).brightness,
                    self.driver == old(self).driver,
                    self.wf(),
                decreases run@.len() - offset,
            {
                self.data.set_byte(index + offset, run[offset]);
                offset = offset + 1;
                assert(self.data.bytes() =~= overwritten(
                    old(self).data.bytes(),
                    index as int,
                    run@.take(offset as int),
                ));
            }
            assert(run@.take(offset as int) =~= run@);
            self.changed = true;
        }
    }

    /// Draws the pixels, first to last.
    ///
    /// A pixel at a point where the shape has no pixel is passed over.
    pub fn draw_iter(&mut self, pixels: &[Pixel<CDraw>]) -> (r: Result<
        (),
        Ws2812Esp32RmtDriverError,
    >)
        requires
            old(self).wf(),
        ensures
            r is Ok,
            Self::draw_iter_post(*old(self), *final(self), pixels@),
    {
        let mut n: usize = 0;
        while n < pixels.len()
            invariant
                n <= pixels@.len(),
                self.wf(),
                self.brightness == old(self).brightness,
                self.driver == old(self).driver,
                self.changed == (old(self).changed || any_mapped::<CDraw, S>(
                    pixels@.take(n as int),
                )),
                !any_mapped::<CDraw, S>(pixels@.take(n as int)) ==> *self == *old(self),
                CDev::obeys_from_spec() ==> self.data.bytes() == drawn_all::<CDraw, CDev, S>(
                    old(self).data.bytes(),
                    pixels@.take(n as int),
                    old(self).brightness,
                ),
            decreases pixels@.len() - n,
        {
            let pixel = pixels[n];
            let ghost before = pixels@.take(n as int);
            let ghost after = pixels@.take(n + 1);
            self.draw(pixel);
            proof {
                assert(after.drop_last() =~= before);
                if S::spec_pixel_index(pixel.0) is Some {
                    assert(S::spec_pixel_index(after[n as int].0) is Some);
                }
            }
            n = n + 1;
        }
        assert(pixels@.take(n as int) =~= pixels@);
        Ok(())
    }

    /// Fills the frame buffer with one color.
    ///
    /// The byte at offset `i` of the buffer becomes the byte of the device
    /// color at offset `i` modulo the bytes per pixel.
    pub fn clear(&mut self, color: CDraw) -> (r: Result<(), Ws2812Esp32RmtDriverError>)
        requires
            old(self).wf(),
        ensures
            r is Ok,
            Self::clear_post(*old(self), *final(self), color),
    {
        let c = CDev::from(color).brightness(self.brightness);
        let run = c.as_ref();
        let len = self.data.as_bytes().len();
        let mut index: usize = 0;
        while index < len
            invariant
                index <= len,
                len == self.data.bytes().len(),
                run@.len() == CDev::BPP,
                forall|i: int| 0 <= i < index ==> self.data.bytes()[i] == run@[i % (CDev::BPP as int)],
                self.changed == old(self).changed,
                self.brightness == old(self).brightness,
                self.driver == old(self).driver,
                self.wf(),
            decreases len - index,
        {
            assert(CDev::BPP > 0) by (nonlinear_arith)
                requires
                    index < pixel_count(S::spec_size()) * CDev::BPP,
                    CDev::BPP >= 0,
            ;
            self.data.set_byte(index, run[index % CDev::BPP]);
            index = index + 1;
        }
        assert(self.data.bytes() =~= filled(Self::buffer_len() as nat, run@));
        self.changed = true;
        Ok(())
    }

    /// Draw bounds no-op: drawing at a point outside the rectangle of the
    /// shape leaves the whole target as it was, the buffer and the dirty
    /// flag with it.
    pub proof fn lemma_draw_outside_bounds(data: Seq<u8>, pixel: Pixel<CDraw>, brightness: u8)
        requires
            S::fits(),
            !in_bounds(pixel.0, S::spec_size()),
        ensures
            S::spec_pixel_index(pixel.0) is None,
            drawn::<CDraw, CDev, S>(data, pixel, brightness) == data,
    {
        S::lemma_pixel_index_in_bounds(pixel.0);
    }

    /// Flush idempotence: after a flush that succeeded, a second flush with
    /// no write in between succeeds, hands nothing to the driver and
    /// changes nothing; so the two together hand over one frame if the
    /// buffer was written before, and none if it was not.
    pub proof fn lemma_flush_idempotent(
        s0: Self,
        s1: Self,
        s2: Self,
        r2: Result<(), Ws2812Esp32RmtDriverError>,
    )
        requires
            Self::flush_post(s0, s1, Ok(())),
            Self::flush_post(s1, s2, r2),
        ensures
            r2 is Ok,
            s1.pending_frames() == 0,
            s2 == s1,
            s0.pending_frames() + s1.pending_frames() == if s0.changed {
                1nat
            } else {
                0nat
            },
    {
    }
}

/// `point` moved by `offset`, or `None` where a coordinate of the moved
/// point is not an `i32`; such a point lies outside every shape.
pub open spec fn moved_point(point: Point, offset: Point) -> Option<Point> {
    if i32::MIN <= point.x + offset.x <= i32::MAX && i32::MIN <= point.y + offset.y <= i32::MAX {
        Some(Point { x: (point.x + offset.x) as i32, y: (point.y + offset.y) as i32 })
    } else {
        None
    }
}

/// The `pixels` with every point moved by `offset`, in their order,
/// without those whose moved point has a coordinate that is not an `i32`.
pub open spec fn moved<C>(pixels: Seq<Pixel<C>>, offset: Point) -> Seq<Pixel<C>>
    decreases pixels.len(),
{
    if pixels.len() == 0 {
        Seq::empty()
    } else {
        let rest = moved(pixels.drop_last(), offset);
        match moved_point(pixels.last().0, offset) {
            Some(point) => rest.push(Pixel(point, pixels.last().1)),
            None => rest,
        }
    }
}

/// Moves `point` by `offset`.
pub fn move_point(point: Point, offset: Point) -> (r: Option<Point>)
    ensures
        r == moved_point(point, offset),
{
    match (point.x.checked_add(offset.x), point.y.checked_add(offset.y)) {
        (Some(x), Some(y)) => Some(Point { x, y }),
        _ => None,
    }
}

/// A draw target seen through an offset: what is drawn at a point lands in
/// the target at the point moved by the offset.  The view borrows the
/// target and holds no buffer of its own.
pub struct Translated<'a, 'd, CDraw, CDev, S, Data> where
    CDraw: Copy,
    CDev: LedPixelColor + From<CDraw>,
    S: LedPixelShape,
    Data: LedPixelData,
 {
    /// The target that is drawn into.
    pub parent: &'a mut LedPixelDrawTarget<'d, CDraw, CDev, S, Data>,
    /// The offset that every point is moved by.
    pub offset: Point,
}

impl<'d, CDraw, CDev, S, Data> LedPixelDrawTarget<'d, CDraw, CDev, S, Data> where
    CDraw: Copy,
    CDev: LedPixelColor + From<CDraw>,
    S: LedPixelShape,
    Data: LedPixelData,
 {
    /// The view of this target through `offset`.  When the view is given
    /// up, the target is as the view left it.
    pub fn translated<'a>(&'a mut self, offset: Point) -> (view: Translated<
        'a,
        'd,
        CDraw,
        CDev,
        S,
        Data,
    >)
        ensures
            *view.parent == *old(self),
            view.offset == offset,
            *final(self) == *final(view.parent),
    {
        Translated { parent: self, offset }
    }
}

impl<'a, 'd, CDraw, CDev, S, Data> Translated<'a, 'd, CDraw, CDev, S, Data> where
    CDraw: Copy,
    CDev: LedPixelColor + From<CDraw>,
    S: LedPixelShape,
    Data: LedPixelData,
 {
    /// Draws the pixels into the target, first to last, each at its point
    /// moved by the offset.
    pub fn draw_iter(&mut self, pixels: &[Pixel<CDraw>]) -> (r: Result<
        (),
        Ws2812Esp32RmtDriverError,
    >)
        requires
            old(self).parent.wf(),
        ensures
            r is Ok,
            final(self).offset == old(self).offset,
            *final(final(self).parent) == *final(old(self).parent),
            LedPixelDrawTarget::draw_iter_post(
                *old(self).parent,
                *final(self).parent,
                moved(pixels@, old(self).offset),
            ),
    {
        let mut shifted: Vec<Pixel<CDraw>> = Vec::new();
        let mut n: usize = 0;
        while n < pixels.len()
            invariant
                n <= pixels@.len(),
                shifted@ == moved(pixels@.take(n as int), self.offset),
            decreases pixels@.len() - n,
        {
            let Pixel(point, color) = pixels[n];
            proof {
                assert(pixels@.take(n + 1).drop_last() =~= pixels@.take(n as int));
            }
            if let Some(point) = move_point(point, self.offset) {
                shifted.push(Pixel(point, color));
            }
            n = n + 1;
        }
        assert(pixels@.take(n as int) =~= pixels@);
        self.parent.draw_iter(shifted.as_slice())
    }

    /// Fills the frame buffer of the target with one color.
    pub fn clear(&mut self, color: CDraw) -> (r: Result<(), Ws2812Esp32RmtDriverError>)
        requires
            old(self).parent.wf(),
        ensures
            r is Ok,
            final(self).offset == old(self).offset,
            *final(final(self).parent) == *final(old(self).parent),
            LedPixelDrawTarget::clear_post(*old(self).parent, *final(self).parent, color),
    {
        self.parent.clear(color)
    }
}

impl<
    const N: usize,
    const R_ORDER: usize,
    const G_ORDER: usize,
    const B_ORDER: usize,
    const W_ORDER: usize,
> From<Rgb888> for LedPixelColorImpl<N, R_ORDER, G_ORDER, B_ORDER, W_ORDER> {
    /// The device color with the red, green and blue of `x`, and white off.
    fn from(x: Rgb888) -> (c: Self) {
        proof {
            Self::lemma_rgbw(x.r, x.g, x.b, 0);
        }
        Self::new_with_rgb(x.r(), x.g(), x.b())
    }
}

impl<
    const N: usize,
    const R_ORDER: usize,
    const G_ORDER: usize,
    const B_ORDER: usize,
    const W_ORDER: usize,
> vstd::std_specs::convert::FromSpecImpl<Rgb888> for LedPixelColorImpl<N, R_ORDER, G_ORDER, B_ORDER, W_ORDER> {
    open spec fn obeys_from_spec() -> bool {
        true
    }

    open spec fn from_spec(x: Rgb888) -> Self {
        Self::rgbw(x.r, x.g, x.b, 0)
    }
}

/// Clearing with black gives the buffer that `clear_with_black()` gives:
/// whatever the brightness, the bytes of black are zeros, and so is the
/// buffer filled with them.
pub proof fn lemma_clear_with_black<
    const N: usize,
    const R_ORDER: usize,
    const G_ORDER: usize,
    const B_ORDER: usize,
    const W_ORDER: usize,
>(len: nat, brightness: u8)
    ensures
        device_bytes::<Rgb888, LedPixelColorImpl<N, R_ORDER, G_ORDER, B_ORDER, W_ORDER>>(
            Rgb888 { r: 0, g: 0, b: 0 },
            brightness,
        ) == zeros(N as nat),
        N > 0 ==> filled(
            len,
            device_bytes::<Rgb888, LedPixelColorImpl<N, R_ORDER, G_ORDER, B_ORDER, W_ORDER>>(
                Rgb888 { r: 0, g: 0, b: 0 },
                brightness,
            ),
        ) == zeros(len),
{
    LedPixelColorImpl::<N, R_ORDER, G_ORDER, B_ORDER, W_ORDER>::lemma_rgbw(0, 0, 0, 0);
    assert(scaled(0, brightness) == 0) by (nonlinear_arith);
}

/// 8-bit GRB (total 24-bit pixel) LED draw target, Typical RGB LED (WS2812B/SK6812) draw target
///
/// * `S` - the LED pixel shape
/// * `Data` - (optional) data storage type. It shall be `Vec`-like struct.
///
/// [`flush()`] operation shall be required to write changes from a framebuffer to the display.
///
/// [`flush()`]: #method.flush
pub type Ws2812DrawTarget<'d, S, Data = LedPixelDrawTargetData> = LedPixelDrawTarget<
    'd,
    Rgb888,
    LedPixelColorGrb24,
    S,
    Data,
>;

} // verus!
