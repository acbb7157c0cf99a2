//! The transmit driver and the protocol encoder.
//!
//! The LED protocol sends every bit as one high pulse followed by one low
//! pulse; the lengths of the two tell a 0 from a 1.  The encoder holds the
//! two symbols for a given clock and maps bytes to symbols, most
//! significant bit first.  The driver takes the byte sequence of a frame.

use crate::mock::esp_idf_hal::gpio::OutputPin;
use crate::mock::esp_idf_hal::peripheral::Peripheral;
use crate::mock::esp_idf_hal::rmt::config::TransmitConfig;
use crate::mock::esp_idf_hal::rmt::{
    ticks_of, PinState, Pulse, RmtChannel, Symbol, TxRmtDriver, COUNTER_CLOCK_HZ,
    PULSE_TICKS_MAX,
};
use crate::mock::esp_idf_hal::units::Hertz;
use crate::mock::esp_idf_sys::EspError;
use std::marker::PhantomData;
use vstd::prelude::*;
use vstd::std_specs::convert::FromSpecImpl;

verus! {

/// T0H duration time (0 code, high voltage time)
pub const WS2812_T0H_NS: u64 = 400;

/// T0L duration time (0 code, low voltage time)
pub const WS2812_T0L_NS: u64 = 850;

/// T1H duration time (1 code, high voltage time)
pub const WS2812_T1H_NS: u64 = 800;

/// T1L duration time (1 code, low voltage time)
pub const WS2812_T1L_NS: u64 = 450;

/// The symbol that holds the pin high for `high_ns` nanoseconds and then low
/// for `low_ns` nanoseconds, on a clock of `clock_hz` ticks per second.
pub open spec fn code_symbol(clock_hz: u32, high_ns: u64, low_ns: u64) -> Symbol {
    Symbol(
        Pulse { ticks: ticks_of(clock_hz, high_ns) as u16, pin_state: PinState::High },
        Pulse { ticks: ticks_of(clock_hz, low_ns) as u16, pin_state: PinState::Low },
    )
}

/// Whether bit `i` of `v` is set, where bit 0 is the most significant one.
pub open spec fn bit_is_set(v: u8, i: u8) -> bool {
    (v >> ((7 - i) as u8)) & 1 != 0
}

/// Every duration of the protocol fits a pulse, whatever the clock.
pub proof fn lemma_protocol_durations_fit(clock_hz: u32)
    ensures
        ticks_of(clock_hz, WS2812_T0H_NS) <= PULSE_TICKS_MAX,
        ticks_of(clock_hz, WS2812_T0L_NS) <= PULSE_TICKS_MAX,
        ticks_of(clock_hz, WS2812_T1H_NS) <= PULSE_TICKS_MAX,
        ticks_of(clock_hz, WS2812_T1L_NS) <= PULSE_TICKS_MAX,
{
}

/// Converter to a sequence of RMT items.
#[derive(Copy, Clone, Eq, PartialEq, Debug, Structural)]
pub struct Ws2812Esp32RmtItemEncoder {
    /// The RMT item that represents a 0 code.
    pub bit0: Symbol,
    /// The RMT item that represents a 1 code.
    pub bit1: Symbol,
}

impl Ws2812Esp32RmtItemEncoder {
    /// The symbol sent for bit `i` of `v`, where bit 0 is the most
    /// significant one.
    pub open spec fn symbol_of(&self, v: u8, i: u8) -> Symbol {
        if bit_is_set(v, i) {
            self.bit1
        } else {
            self.bit0
        }
    }

    /// The symbols sent for the bytes `src`: eight for each byte, in the
    /// order of the bytes, most significant bit first.
    pub open spec fn encoded(&self, src: Seq<u8>) -> Seq<Symbol> {
        Seq::new(8 * src.len(), |k: int| self.symbol_of(src[k / 8], (k % 8) as u8))
    }

    /// Creates a new encoder with the given clock frequency.
    ///
    /// # Errors
    ///
    /// Returns an error if a duration of the protocol does not fit a pulse
    /// at this clock; with a 32-bit clock frequency none is too long.
    pub fn new(clock_hz: Hertz) -> (r: Result<Self, EspError>)
        ensures
            r matches Ok(encoder) && encoder.bit0 == code_symbol(
                clock_hz.0,
                WS2812_T0H_NS,
                WS2812_T0L_NS,
            ) && encoder.bit1 == code_symbol(clock_hz.0, WS2812_T1H_NS, WS2812_T1L_NS),
    {
        proof {
            lemma_protocol_durations_fit(clock_hz.0);
        }
        let t0h = Pulse::new_with_duration(clock_hz, PinState::High, WS2812_T0H_NS)?;
        let t0l = Pulse::new_with_duration(clock_hz, PinState::Low, WS2812_T0L_NS)?;
        let t1h = Pulse::new_with_duration(clock_hz, PinState::High, WS2812_T1H_NS)?;
        let t1l = Pulse::new_with_duration(clock_hz, PinState::Low, WS2812_T1L_NS)?;
        let (bit0, bit1) = (Symbol::new(t0h, t0l), Symbol::new(t1h, t1l));
        Ok(Self { bit0, bit1 })
    }

    /// The symbol for bit `i` of `v`, where bit 0 is the most significant
    /// one.  This reads the encoder and changes nothing.
    #[inline]
    pub fn symbol(&self, v: u8, i: u8) -> (s: Symbol)
        requires
            i < 8,
        ensures
            s == self.symbol_of(v, i),
    {
        if (v >> (7 - i)) & 1 != 0 {
            self.bit1
        } else {
            self.bit0
        }
    }

    /// Encodes a block of data as a sequence of RMT items.
    ///
    /// # Arguments
    ///
    /// * `src` - The block of data to encode.
    ///
    /// # Returns
    ///
    /// The RMT items that represent the encoded data: eight items for each
    /// byte.
    pub fn encode_iter(&self, src: &[u8]) -> (signal: Vec<Symbol>)
        ensures
            signal@ == self.encoded(src@),
            signal@.len() == 8 * src@.len(),
    {
        let mut signal: Vec<Symbol> = Vec::new();
        let mut n: usize = 0;
        while n < src.len()
            invariant
                n <= src@.len(),
                signal@.len() == 8 * n,
                forall|k: int|
                    0 <= k < signal@.len() ==> signal@[k] == self.symbol_of(
                        src@[k / 8],
                        (k % 8) as u8,
                    ),
            decreases src@.len() - n,
        {
            let v = src[n];
            let mut i: u8 = 0;
            while i < 8
                invariant
                    i <= 8,
                    n < src@.len(),
                    v == src@[n as int],
                    signal@.len() == 8 * n + i,
                    forall|k: int|
                        0 <= k < signal@.len() ==> signal@[k] == self.symbol_of(
                            src@[k / 8],
                            (k % 8) as u8,
                        ),
                decreases 8 - i,
            {
                signal.push(self.symbol(v, i));
                i = i + 1;
            }
            n = n + 1;
        }
        signal
    }
}

/// WS2812 ESP32 RMT Driver error.
#[derive(Debug)]
pub struct Ws2812Esp32RmtDriverError {
    pub source: EspError,
}

impl Ws2812Esp32RmtDriverError {
    /// The `EspError` source of this error, if any.
    pub fn source(&self) -> (s: Option<&EspError>)
        ensures
            s == Some(&self.source),
    {
        Some(&self.source)
    }

    /// The text this error is shown as: that of its source.
    pub fn to_string(&self) -> (text: String)
        ensures
            text@ == "EspError"@,
    {
        self.source.to_string()
    }
}

impl From<EspError> for Ws2812Esp32RmtDriverError {
    fn from(source: EspError) -> (e: Self) {
        Self { source }
    }
}

impl FromSpecImpl<EspError> for Ws2812Esp32RmtDriverError {
    open spec fn obeys_from_spec() -> bool {
        true
    }

    open spec fn from_spec(source: EspError) -> Self {
        Ws2812Esp32RmtDriverError { source }
    }
}

/// WS2812 ESP32 RMT driver wrapper.
///
/// The driver owns one transmit channel and the encoder for the clock of
/// that channel.  The encoder is made once, with the driver, and stays as
/// it is.  Beside the symbols that the channel was given, the driver keeps
/// the bytes of the frame that was last written in `pixel_data`.
pub struct Ws2812Esp32RmtDriver<'d> {
    /// TxRMT driver.
    pub tx: TxRmtDriver<'d>,
    /// `u8`-to-`rmt_item32_t` Encoder
    pub encoder: Ws2812Esp32RmtItemEncoder,
    /// Pixel binary array to be written
    pub pixel_data: Option<Vec<u8>>,
    /// Dummy phantom to take care of lifetime for `pixel_data`.
    pub phantom: PhantomData<&'d Option<Vec<u8>>>,
}

/// The encoder for the clock of the host model.
pub open spec fn counter_clock_encoder() -> Ws2812Esp32RmtItemEncoder {
    Ws2812Esp32RmtItemEncoder {
        bit0: code_symbol(COUNTER_CLOCK_HZ, WS2812_T0H_NS, WS2812_T0L_NS),
        bit1: code_symbol(COUNTER_CLOCK_HZ, WS2812_T1H_NS, WS2812_T1L_NS),
    }
}

impl<'d> Ws2812Esp32RmtDriver<'d> {
    /// The bytes of the frame that was last written, if any was.
    pub open spec fn written(&self) -> Option<Seq<u8>> {
        match self.pixel_data {
            Some(data) => Some(data@),
            None => None,
        }
    }

    /// The driver as it is before the first write: nothing written,
    /// nothing transmitted, and the encoder that of the channel's clock.
    pub open spec fn fresh(&self) -> bool {
        &&& self.written() == None::<Seq<u8>>
        &&& self.tx.transmitted() == None::<Seq<Symbol>>
        &&& !self.tx.fault
        &&& self.encoder == counter_clock_encoder()
    }

    /// How the driver `post` after a write of `pixels` relates to the
    /// driver `pre` before it, given what the write returned.
    ///
    /// The write fails exactly when the channel refuses to transmit, and
    /// the driver then stays as it was.  After a write that succeeded the
    /// channel holds the symbols of the bytes, eight for each byte, and the
    /// driver holds the bytes; the encoder is the same.
    pub open spec fn write_post(
        pre: Self,
        post: Self,
        pixels: Seq<u8>,
        r: Result<(), Ws2812Esp32RmtDriverError>,
    ) -> bool {
        &&& r is Err <==> pre.tx.fault
        &&& r is Err ==> post == pre
        &&& r is Ok ==> {
            &&& post.written() == Some(pixels)
            &&& post.tx.transmitted() == Some(pre.encoder.encoded(pixels))
            &&& !post.tx.fault
            &&& post.encoder == pre.encoder
        }
    }

    /// Creates a WS2812 ESP32 RMT driver wrapper.
    ///
    /// RMT driver of `channel` shall be initialized and installed for `pin`.
    /// `channel` shall be different between different `pin`.
    ///
    /// # Errors
    ///
    /// Returns an error if the RMT driver initialization failed.
    pub fn new<C: RmtChannel>(
        channel: impl Peripheral<P = C> + 'd,
        pin: impl Peripheral<P = impl OutputPin> + 'd,
    ) -> (r: Result<Self, Ws2812Esp32RmtDriverError>)
        ensures
            r matches Ok(driver) && driver.fresh(),
    {
        let config = TransmitConfig::new().clock_divider(1);
        match TxRmtDriver::new(channel, pin, &config) {
            Ok(tx) => Self::new_with_rmt_driver(tx),
            Err(e) => Err(Ws2812Esp32RmtDriverError::from(e)),
        }
    }

    /// Creates a WS2812 ESP32 RMT driver wrapper with `TxRmtDriver`.
    ///
    /// The clock divider must be set to 1 for the `driver` configuration.
    ///
    /// # Errors
    ///
    /// Returns an error if the clock of the channel cannot be read, or if
    /// no encoder can be made for it.
    pub fn new_with_rmt_driver(tx: TxRmtDriver<'d>) -> (r: Result<
        Self,
        Ws2812Esp32RmtDriverError,
    >)
        ensures
            r matches Ok(driver) && driver.tx == tx && driver.written() == None::<Seq<u8>>
                && driver.encoder == counter_clock_encoder(),
    {
        let clock_hz = match tx.counter_clock() {
            Ok(clock_hz) => clock_hz,
            Err(e) => {
                return Err(Ws2812Esp32RmtDriverError::from(e));
            },
        };
        let encoder = match Ws2812Esp32RmtItemEncoder::new(clock_hz) {
            Ok(encoder) => encoder,
            Err(e) => {
                return Err(Ws2812Esp32RmtDriverError::from(e));
            },
        };
        Ok(Self { tx, encoder, pixel_data: None, phantom: PhantomData })
    }

    /// Writes pixel data from a pixel-byte sequence to the IO pin.
    ///
    /// Byte count per LED pixel and channel order is not handled by this method.
    /// The pixel data sequence has to be correctly laid out depending on the LED strip model.
    ///
    /// # Errors
    ///
    /// Returns an error if an RMT driver error occurred.  After an error
    /// the driver holds the frame it held before.
    pub fn write_blocking(&mut self, pixel_sequence: &[u8]) -> (r: Result<
        (),
        Ws2812Esp32RmtDriverError,
    >)
        ensures
            Self::write_post(*old(self), *final(self), pixel_sequence@, r),
    {
        let signal = self.encoder.encode_iter(pixel_sequence);
        match self.tx.start_iter_blocking(signal) {
            Ok(()) => {},
            Err(e) => {
                return Err(Ws2812Esp32RmtDriverError::from(e));
            },
        }
        self.pixel_data = Some(vstd::slice::slice_to_vec(pixel_sequence));
        Ok(())
    }

    /// Writes pixel data from a pixel-byte sequence to the IO pin.
    ///
    /// Byte count per LED pixel and channel order is not handled by this method.
    /// The pixel data sequence has to be correctly laid out depending on the LED strip model.
    ///
    /// The sequence is handed over: the driver owns it from the call on.
    ///
    /// # Errors
    ///
    /// Returns an error if an RMT driver error occurred.  After an error
    /// the driver holds the frame it held before.
    pub fn write(&mut self, pixel_sequence: Vec<u8>) -> (r: Result<(), Ws2812Esp32RmtDriverError>)
        ensures
            Self::write_post(*old(self), *final(self), pixel_sequence@, r),
    {
        let signal = self.encoder.encode_iter(pixel_sequence.as_slice());
        match self.tx.start_iter(signal) {
            Ok(()) => {},
            Err(e) => {
                return Err(Ws2812Esp32RmtDriverError::from(e));
            },
        }
        self.pixel_data = Some(pixel_sequence);
        Ok(())
    }
}

} // verus!
