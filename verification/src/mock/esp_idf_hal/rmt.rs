//! The pulse-train peripheral.
//!
//! A pulse is a pin level held for a number of clock ticks; a symbol is two
//! pulses, sent one after the other.  The peripheral stores the length of a
//! pulse in 15 bits.

use super::gpio::OutputPin;
use super::peripheral::Peripheral;
use super::sys::EspError;
use super::units::Hertz;
use config::TransmitConfig;
use std::marker::PhantomData;
use vstd::prelude::*;

pub mod config;

verus! {

/// Pulse channel 0.
#[derive(Debug, Default)]
pub struct CHANNEL0 {

}

impl CHANNEL0 {
    pub fn new() -> Self {
        Self {  }
    }
}

impl Peripheral for CHANNEL0 {
    type P = CHANNEL0;
}

impl RmtChannel for CHANNEL0 {

}

/// Pulse channel 1.
#[derive(Debug, Default)]
pub struct CHANNEL1 {

}

impl CHANNEL1 {
    pub fn new() -> Self {
        Self {  }
    }
}

impl Peripheral for CHANNEL1 {
    type P = CHANNEL1;
}

impl RmtChannel for CHANNEL1 {

}

/// Pulse channel 2.
#[derive(Debug, Default)]
pub struct CHANNEL2 {

}

impl CHANNEL2 {
    pub fn new() -> Self {
        Self {  }
    }
}

impl Peripheral for CHANNEL2 {
    type P = CHANNEL2;
}

impl RmtChannel for CHANNEL2 {

}

/// Pulse channel 3.
#[derive(Debug, Default)]
pub struct CHANNEL3 {

}

impl CHANNEL3 {
    pub fn new() -> Self {
        Self {  }
    }
}

impl Peripheral for CHANNEL3 {
    type P = CHANNEL3;
}

impl RmtChannel for CHANNEL3 {

}

/// Pulse channel 4.
#[derive(Debug, Default)]
pub struct CHANNEL4 {

}

impl CHANNEL4 {
    pub fn new() -> Self {
        Self {  }
    }
}

impl Peripheral for CHANNEL4 {
    type P = CHANNEL4;
}

impl RmtChannel for CHANNEL4 {

}

/// Pulse channel 5.
#[derive(Debug, Default)]
pub struct CHANNEL5 {

}

impl CHANNEL5 {
    pub fn new() -> Self {
        Self {  }
    }
}

impl Peripheral for CHANNEL5 {
    type P = CHANNEL5;
}

impl RmtChannel for CHANNEL5 {

}

/// Pulse channel 6.
#[derive(Debug, Default)]
pub struct CHANNEL6 {

}

impl CHANNEL6 {
    pub fn new() -> Self {
        Self {  }
    }
}

impl Peripheral for CHANNEL6 {
    type P = CHANNEL6;
}

impl RmtChannel for CHANNEL6 {

}

/// Pulse channel 7.
#[derive(Debug, Default)]
pub struct CHANNEL7 {

}

impl CHANNEL7 {
    pub fn new() -> Self {
        Self {  }
    }
}

impl Peripheral for CHANNEL7 {
    type P = CHANNEL7;
}

impl RmtChannel for CHANNEL7 {

}

/// The pulse channels of the device, one field per channel.
#[derive(Debug, Default)]
pub struct RMT {
    pub channel0: CHANNEL0,
    pub channel1: CHANNEL1,
    pub channel2: CHANNEL2,
    pub channel3: CHANNEL3,
    pub channel4: CHANNEL4,
    pub channel5: CHANNEL5,
    pub channel6: CHANNEL6,
    pub channel7: CHANNEL7,
}

impl RMT {
    /// All the channels, none of them taken.
    pub fn new() -> Self {
        RMT {
            channel0: CHANNEL0 {  },
            channel1: CHANNEL1 {  },
            channel2: CHANNEL2 {  },
            channel3: CHANNEL3 {  },
            channel4: CHANNEL4 {  },
            channel5: CHANNEL5 {  },
            channel6: CHANNEL6 {  },
            channel7: CHANNEL7 {  },
        }
    }
}

/// A channel of the pulse-train peripheral.
pub trait RmtChannel {

}

/// The level of the output pin during a pulse.
#[derive(Copy, Clone, Eq, PartialEq, Hash, Debug, Structural)]
pub enum PinState {
    Low,
    High,
}

/// A pin level held for a number of clock ticks.
#[derive(Copy, Clone, Eq, PartialEq, Hash, Debug, Structural)]
pub struct Pulse {
    pub ticks: u16,
    pub pin_state: PinState,
}

/// Two pulses sent one after the other: the unit the peripheral transmits.
#[derive(Copy, Clone, Eq, PartialEq, Hash, Debug, Structural)]
pub struct Symbol(pub Pulse, pub Pulse);

/// The frequency, in hertz, of the clock that the pulses of the host model
/// are counted in: 80 MHz, a peripheral clock that is not divided.
pub const COUNTER_CLOCK_HZ: u32 = 80_000_000;

/// A transmit channel bound to an output pin.
///
/// The host model sends nothing: it keeps the symbols of the last
/// transmission, where they can be read back.  With `fault` set it refuses
/// every transmission, as a channel does that has failed.
pub struct TxRmtDriver<'d> {
    /// The symbols of the last transmission, if there was one.
    pub signal: Option<Vec<Symbol>>,
    /// Whether the channel refuses to transmit.
    pub fault: bool,
    pub _p: PhantomData<&'d mut ()>,
}

impl<'d> TxRmtDriver<'d> {
    /// The symbols of the last transmission, if there was one.
    pub open spec fn transmitted(&self) -> Option<Seq<Symbol>> {
        match self.signal {
            Some(signal) => Some(signal@),
            None => None,
        }
    }

    /// How the channel `post` after a call to transmit `signal` relates to
    /// the channel `pre` before it, given what the call returned: a
    /// channel with a fault refuses and stays as it was; any other channel
    /// holds the symbols it was given.
    pub open spec fn transmit_post(
        pre: Self,
        post: Self,
        signal: Seq<Symbol>,
        r: Result<(), EspError>,
    ) -> bool {
        &&& r is Err <==> pre.fault
        &&& r is Err ==> post == pre
        &&& r is Ok ==> post.transmitted() == Some(signal) && !post.fault
    }

    /// Binds `channel` to `pin`.  The host model has nothing to bind, so
    /// this always succeeds and none of the arguments is read.
    pub fn new<C: RmtChannel>(
        _channel: impl Peripheral<P = C> + 'd,
        _pin: impl Peripheral<P = impl OutputPin> + 'd,
        _config: &TransmitConfig,
    ) -> (r: Result<Self, EspError>)
        ensures
            r matches Ok(tx) && tx.transmitted() == None::<Seq<Symbol>> && !tx.fault,
    {
        Ok(Self { signal: None, fault: false, _p: PhantomData })
    }

    /// The frequency of the clock that the pulses of this channel are
    /// counted in.
    pub fn counter_clock(&self) -> (r: Result<Hertz, EspError>)
        ensures
            r == Ok::<Hertz, EspError>(Hertz(COUNTER_CLOCK_HZ)),
    {
        Ok(Hertz(COUNTER_CLOCK_HZ))
    }

    /// Transmits the symbols and returns when the last one is out.
    ///
    /// # Errors
    ///
    /// Fails exactly when the channel has a fault; the channel then stays
    /// as it was.
    pub fn start_iter_blocking(&mut self, signal: Vec<Symbol>) -> (r: Result<(), EspError>)
        ensures
            Self::transmit_post(*old(self), *final(self), signal@, r),
    {
        if self.fault {
            return Err(EspError());
        }
        self.signal = Some(signal);
        Ok(())
    }

    /// Hands the symbols over for transmission and returns at once.
    ///
    /// # Errors
    ///
    /// Fails exactly when the channel has a fault; the channel then stays
    /// as it was.
    pub fn start_iter(&mut self, signal: Vec<Symbol>) -> (r: Result<(), EspError>)
        ensures
            Self::transmit_post(*old(self), *final(self), signal@, r),
    {
        if self.fault {
            return Err(EspError());
        }
        self.signal = Some(signal);
        Ok(())
    }
}

/// The largest number of ticks that a pulse can last.
pub const PULSE_TICKS_MAX: u16 = 32767;

/// Nanoseconds in one second.
pub const NANOS_PER_SEC: u64 = 1_000_000_000;

/// The number of clock ticks, at `ticks_hz` ticks per second, that pass in
/// `duration_ns` nanoseconds, rounded towards zero.
pub open spec fn ticks_of(ticks_hz: u32, duration_ns: u64) -> int {
    (duration_ns as int) * (ticks_hz as int) / (NANOS_PER_SEC as int)
}

/// Converts a duration in nanoseconds to clock ticks.
///
/// Fails exactly when the number of ticks does not fit a pulse.
pub fn duration_to_ticks(ticks_hz: Hertz, duration_ns: u64) -> (r: Result<u16, EspError>)
    ensures
        r is Ok <==> ticks_of(ticks_hz.0, duration_ns) <= PULSE_TICKS_MAX,
        r matches Ok(ticks) ==> ticks == ticks_of(ticks_hz.0, duration_ns),
{
    let nanos: u128 = duration_ns as u128;
    let hz: u128 = ticks_hz.0 as u128;
    assert(0 <= nanos * hz <= 0xffff_ffff_ffff_ffff * 0xffff_ffff) by (nonlinear_arith)
        requires
            0 <= nanos <= 0xffff_ffff_ffff_ffff,
            0 <= hz <= 0xffff_ffff,
    ;
    let ticks: u128 = nanos * hz / (NANOS_PER_SEC as u128);
    if ticks <= PULSE_TICKS_MAX as u128 {
        Ok(ticks as u16)
    } else {
        Err(EspError())
    }
}

impl Pulse {
    /// The pulse lasts no longer than the peripheral can count.
    pub open spec fn wf(&self) -> bool {
        self.ticks <= PULSE_TICKS_MAX
    }

    /// A pulse of `ticks` clock ticks at level `pin_state`.
    pub fn new(pin_state: PinState, ticks: u16) -> (p: Self)
        ensures
            p == (Pulse { ticks, pin_state }),
    {
        Pulse { ticks, pin_state }
    }

    /// A pulse at level `pin_state` that lasts `duration_ns` nanoseconds on
    /// a clock of `ticks_hz` ticks per second.
    ///
    /// Fails exactly when the duration takes more ticks than a pulse can
    /// last.
    pub fn new_with_duration(ticks_hz: Hertz, pin_state: PinState, duration_ns: u64) -> (r: Result<
        Self,
        EspError,
    >)
        ensures
            r is Ok <==> ticks_of(ticks_hz.0, duration_ns) <= PULSE_TICKS_MAX,
            r matches Ok(p) ==> p.pin_state == pin_state && p.ticks == ticks_of(
                ticks_hz.0,
                duration_ns,
            ) && p.wf(),
    {
        match duration_to_ticks(ticks_hz, duration_ns) {
            Ok(ticks) => Ok(Pulse::new(pin_state, ticks)),
            Err(e) => Err(e),
        }
    }
}

impl Symbol {
    /// The symbol that sends `level0`, then `level1`.
    pub fn new(level0: Pulse, level1: Pulse) -> (s: Self)
        ensures
            s == Symbol(level0, level1),
    {
        Symbol(level0, level1)
    }
}

} // verus!
