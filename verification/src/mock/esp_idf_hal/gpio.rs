//! General-purpose I/O pins.

use super::peripheral::Peripheral;
use vstd::prelude::*;

verus! {

/// A pin that can drive an output signal.
pub trait OutputPin {

}

/// All the pins of the device, one field per pin.
#[derive(Debug, Default)]
pub struct Pins {
    pub gpio0: Gpio0,
    pub gpio1: Gpio1,
    pub gpio2: Gpio2,
    pub gpio3: Gpio3,
    pub gpio4: Gpio4,
    pub gpio5: Gpio5,
    pub gpio6: Gpio6,
    pub gpio7: Gpio7,
    pub gpio8: Gpio8,
    pub gpio9: Gpio9,
    pub gpio10: Gpio10,
    pub gpio11: Gpio11,
    pub gpio12: Gpio12,
    pub gpio13: Gpio13,
    pub gpio14: Gpio14,
    pub gpio15: Gpio15,
    pub gpio16: Gpio16,
    pub gpio17: Gpio17,
    pub gpio18: Gpio18,
    pub gpio19: Gpio19,
    pub gpio20: Gpio20,
    pub gpio21: Gpio21,
    pub gpio22: Gpio22,
    pub gpio23: Gpio23,
    pub gpio24: Gpio24,
    pub gpio25: Gpio25,
    pub gpio26: Gpio26,
    pub gpio27: Gpio27,
    pub gpio28: Gpio28,
    pub gpio29: Gpio29,
    pub gpio30: Gpio30,
    pub gpio31: Gpio31,
    pub gpio32: Gpio32,
    pub gpio33: Gpio33,
    pub gpio34: Gpio34,
    pub gpio35: Gpio35,
    pub gpio36: Gpio36,
    pub gpio37: Gpio37,
    pub gpio38: Gpio38,
    pub gpio39: Gpio39,
    pub gpio40: Gpio40,
    pub gpio41: Gpio41,
    pub gpio42: Gpio42,
    pub gpio43: Gpio43,
    pub gpio44: Gpio44,
    pub gpio45: Gpio45,
    pub gpio46: Gpio46,
    pub gpio47: Gpio47,
    pub gpio48: Gpio48,
}

impl Pins {
    /// All the pins, none of them taken.
    pub(super) fn new() -> Self {
        Pins {
            gpio0: Gpio0 {  },
            gpio1: Gpio1 {  },
            gpio2: Gpio2 {  },
            gpio3: Gpio3 {  },
            gpio4: Gpio4 {  },
            gpio5: Gpio5 {  },
            gpio6: Gpio6 {  },
            gpio7: Gpio7 {  },
            gpio8: Gpio8 {  },
            gpio9: Gpio9 {  },
            gpio10: Gpio10 {  },
            gpio11: Gpio11 {  },
            gpio12: Gpio12 {  },
            gpio13: Gpio13 {  },
            gpio14: Gpio14 {  },
            gpio15: Gpio15 {  },
            gpio16: Gpio16 {  },
            gpio17: Gpio17 {  },
            gpio18: Gpio18 {  },
            gpio19: Gpio19 {  },
            gpio20: Gpio20 {  },
            gpio21: Gpio21 {  },
            gpio22: Gpio22 {  },
            gpio23: Gpio23 {  },
            gpio24: Gpio24 {  },
            gpio25: Gpio25 {  },
            gpio26: Gpio26 {  },
            gpio27: Gpio27 {  },
            gpio28: Gpio28 {  },
            gpio29: Gpio29 {  },
            gpio30: Gpio30 {  },
            gpio31: Gpio31 {  },
            gpio32: Gpio32 {  },
            gpio33: Gpio33 {  },
            gpio34: Gpio34 {  },
            gpio35: Gpio35 {  },
            gpio36: Gpio36 {  },
            gpio37: Gpio37 {  },
            gpio38: Gpio38 {  },
            gpio39: Gpio39 {  },
            gpio40: Gpio40 {  },
            gpio41: Gpio41 {  },
            gpio42: Gpio42 {  },
            gpio43: Gpio43 {  },
            gpio44: Gpio44 {  },
            gpio45: Gpio45 {  },
            gpio46: Gpio46 {  },
            gpio47: Gpio47 {  },
            gpio48: Gpio48 {  },
        }
    }
}

/// Pin 0.
#[derive(Debug, Default)]
pub struct Gpio0 {

}

impl OutputPin for Gpio0 {

}

impl Peripheral for Gpio0 {
    type P = Gpio0;
}

/// Pin 1.
#[derive(Debug, Default)]
pub struct Gpio1 {

}

impl OutputPin for Gpio1 {

}

impl Peripheral for Gpio1 {
    type P = Gpio1;
}

/// Pin 2.
#[derive(Debug, Default)]
pub struct Gpio2 {

}

impl OutputPin for Gpio2 {

}

impl Peripheral for Gpio2 {
    type P = Gpio2;
}

/// Pin 3.
#[derive(Debug, Default)]
pub struct Gpio3 {

}

impl OutputPin for Gpio3 {

}

impl Peripheral for Gpio3 {
    type P = Gpio3;
}

/// Pin 4.
#[derive(Debug, Default)]
pub struct Gpio4 {

}

impl OutputPin for Gpio4 {

}

impl Peripheral for Gpio4 {
    type P = Gpio4;
}

/// Pin 5.
#[derive(Debug, Default)]
pub struct Gpio5 {

}

impl OutputPin for Gpio5 {

}

impl Peripheral for Gpio5 {
    type P = Gpio5;
}

/// Pin 6.
#[derive(Debug, Default)]
pub struct Gpio6 {

}

impl OutputPin for Gpio6 {

}

impl Peripheral for Gpio6 {
    type P = Gpio6;
}

/// Pin 7.
#[derive(Debug, Default)]
pub struct Gpio7 {

}

impl OutputPin for Gpio7 {

}

impl Peripheral for Gpio7 {
    type P = Gpio7;
}

/// Pin 8.
#[derive(Debug, Default)]
pub struct Gpio8 {

}

impl OutputPin for Gpio8 {

}

impl Peripheral for Gpio8 {
    type P = Gpio8;
}

/// Pin 9.
#[derive(Debug, Default)]
pub struct Gpio9 {

}

impl OutputPin for Gpio9 {

}

impl Peripheral for Gpio9 {
    type P = Gpio9;
}

/// Pin 10.
#[derive(Debug, Default)]
pub struct Gpio10 {

}

impl OutputPin for Gpio10 {

}

impl Peripheral for Gpio10 {
    type P = Gpio10;
}

/// Pin 11.
#[derive(Debug, Default)]
pub struct Gpio11 {

}

impl OutputPin for Gpio11 {

}

impl Peripheral for Gpio11 {
    type P = Gpio11;
}

/// Pin 12.
#[derive(Debug, Default)]
pub struct Gpio12 {

}

impl OutputPin for Gpio12 {

}

impl Peripheral for Gpio12 {
    type P = Gpio12;
}

/// Pin 13.
#[derive(Debug, Default)]
pub struct Gpio13 {

}

impl OutputPin for Gpio13 {

}

impl Peripheral for Gpio13 {
    type P = Gpio13;
}

/// Pin 14.
#[derive(Debug, Default)]
pub struct Gpio14 {

}

impl OutputPin for Gpio14 {

}

impl Peripheral for Gpio14 {
    type P = Gpio14;
}

/// Pin 15.
#[derive(Debug, Default)]
pub struct Gpio15 {

}

impl OutputPin for Gpio15 {

}

impl Peripheral for Gpio15 {
    type P = Gpio15;
}

/// Pin 16.
#[derive(Debug, Default)]
pub struct Gpio16 {

}

impl OutputPin for Gpio16 {

}

impl Peripheral for Gpio16 {
    type P = Gpio16;
}

/// Pin 17.
#[derive(Debug, Default)]
pub struct Gpio17 {

}

impl OutputPin for Gpio17 {

}

impl Peripheral for Gpio17 {
    type P = Gpio17;
}

/// Pin 18.
#[derive(Debug, Default)]
pub struct Gpio18 {

}

impl OutputPin for Gpio18 {

}

impl Peripheral for Gpio18 {
    type P = Gpio18;
}

/// Pin 19.
#[derive(Debug, Default)]
pub struct Gpio19 {

}

impl OutputPin for Gpio19 {

}

impl Peripheral for Gpio19 {
    type P = Gpio19;
}

/// Pin 20.
#[derive(Debug, Default)]
pub struct Gpio20 {

}

impl OutputPin for Gpio20 {

}

impl Peripheral for Gpio20 {
    type P = Gpio20;
}

/// Pin 21.
#[derive(Debug, Default)]
pub struct Gpio21 {

}

impl OutputPin for Gpio21 {

}

impl Peripheral for Gpio21 {
    type P = Gpio21;
}

/// Pin 22.
#[derive(Debug, Default)]
pub struct Gpio22 {

}

impl OutputPin for Gpio22 {

}

impl Peripheral for Gpio22 {
    type P = Gpio22;
}

/// Pin 23.
#[derive(Debug, Default)]
pub struct Gpio23 {

}

impl OutputPin for Gpio23 {

}

impl Peripheral for Gpio23 {
    type P = Gpio23;
}

/// Pin 24.
#[derive(Debug, Default)]
pub struct Gpio24 {

}

impl OutputPin for Gpio24 {

}

impl Peripheral for Gpio24 {
    type P = Gpio24;
}

/// Pin 25.
#[derive(Debug, Default)]
pub struct Gpio25 {

}

impl OutputPin for Gpio25 {

}

impl Peripheral for Gpio25 {
    type P = Gpio25;
}

/// Pin 26.
#[derive(Debug, Default)]
pub struct Gpio26 {

}

impl OutputPin for Gpio26 {

}

impl Peripheral for Gpio26 {
    type P = Gpio26;
}

/// Pin 27.
#[derive(Debug, Default)]
pub struct Gpio27 {

}

impl OutputPin for Gpio27 {

}

impl Peripheral for Gpio27 {
    type P = Gpio27;
}

/// Pin 28.
#[derive(Debug, Default)]
pub struct Gpio28 {

}

impl OutputPin for Gpio28 {

}

impl Peripheral for Gpio28 {
    type P = Gpio28;
}

/// Pin 29.
#[derive(Debug, Default)]
pub struct Gpio29 {

}

impl OutputPin for Gpio29 {

}

impl Peripheral for Gpio29 {
    type P = Gpio29;
}

/// Pin 30.
#[derive(Debug, Default)]
pub struct Gpio30 {

}

impl OutputPin for Gpio30 {

}

impl Peripheral for Gpio30 {
    type P = Gpio30;
}

/// Pin 31.
#[derive(Debug, Default)]
pub struct Gpio31 {

}

impl OutputPin for Gpio31 {

}

impl Peripheral for Gpio31 {
    type P = Gpio31;
}

/// Pin 32.
#[derive(Debug, Default)]
pub struct Gpio32 {

}

impl OutputPin for Gpio32 {

}

impl Peripheral for Gpio32 {
    type P = Gpio32;
}

/// Pin 33.
#[derive(Debug, Default)]
pub struct Gpio33 {

}

impl OutputPin for Gpio33 {

}

impl Peripheral for Gpio33 {
    type P = Gpio33;
}

/// Pin 34.
#[derive(Debug, Default)]
pub struct Gpio34 {

}

impl OutputPin for Gpio34 {

}

impl Peripheral for Gpio34 {
    type P = Gpio34;
}

/// Pin 35.
#[derive(Debug, Default)]
pub struct Gpio35 {

}

impl OutputPin for Gpio35 {

}

impl Peripheral for Gpio35 {
    type P = Gpio35;
}

/// Pin 36.
#[derive(Debug, Default)]
pub struct Gpio36 {

}

impl OutputPin for Gpio36 {

}

impl Peripheral for Gpio36 {
    type P = Gpio36;
}

/// Pin 37.
#[derive(Debug, Default)]
pub struct Gpio37 {

}

impl OutputPin for Gpio37 {

}

impl Peripheral for Gpio37 {
    type P = Gpio37;
}

/// Pin 38.
#[derive(Debug, Default)]
pub struct Gpio38 {

}

impl OutputPin for Gpio38 {

}

impl Peripheral for Gpio38 {
    type P = Gpio38;
}

/// Pin 39.
#[derive(Debug, Default)]
pub struct Gpio39 {

}

impl OutputPin for Gpio39 {

}

impl Peripheral for Gpio39 {
    type P = Gpio39;
}

/// Pin 40.
#[derive(Debug, Default)]
pub struct Gpio40 {

}

impl OutputPin for Gpio40 {

}

impl Peripheral for Gpio40 {
    type P = Gpio40;
}

/// Pin 41.
#[derive(Debug, Default)]
pub struct Gpio41 {

}

impl OutputPin for Gpio41 {

}

impl Peripheral for Gpio41 {
    type P = Gpio41;
}

/// Pin 42.
#[derive(Debug, Default)]
pub struct Gpio42 {

}

impl OutputPin for Gpio42 {

}

impl Peripheral for Gpio42 {
    type P = Gpio42;
}

/// Pin 43.
#[derive(Debug, Default)]
pub struct Gpio43 {

}

impl OutputPin for Gpio43 {

}

impl Peripheral for Gpio43 {
    type P = Gpio43;
}

/// Pin 44.
#[derive(Debug, Default)]
pub struct Gpio44 {

}

impl OutputPin for Gpio44 {

}

impl Peripheral for Gpio44 {
    type P = Gpio44;
}

/// Pin 45.
#[derive(Debug, Default)]
pub struct Gpio45 {

}

impl OutputPin for Gpio45 {

}

impl Peripheral for Gpio45 {
    type P = Gpio45;
}

/// Pin 46.
#[derive(Debug, Default)]
pub struct Gpio46 {

}

impl OutputPin for Gpio46 {

}

impl Peripheral for Gpio46 {
    type P = Gpio46;
}

/// Pin 47.
#[derive(Debug, Default)]
pub struct Gpio47 {

}

impl OutputPin for Gpio47 {

}

impl Peripheral for Gpio47 {
    type P = Gpio47;
}

/// Pin 48.
#[derive(Debug, Default)]
pub struct Gpio48 {

}

impl OutputPin for Gpio48 {

}

impl Peripheral for Gpio48 {
    type P = Gpio48;
}

} // verus!
