//! Driver for single-wire addressable RGB(W) LED pixels (WS2812 / SK6812 class).
//!
//! A logical color buffer is laid out in the byte order the device expects,
//! scaled by a brightness level, and turned bit by bit into the two-level
//! pulse train of the LED protocol.  Every function carries a contract over
//! the byte sequences it produces.

pub mod driver;
pub mod lib_embedded_graphics;
pub mod lib_smart_leds;
pub mod mock;
pub mod pixel_data;
pub mod smart_leds;

pub use driver::{Ws2812Esp32RmtDriver, Ws2812Esp32RmtDriverError};
pub use lib_smart_leds::{LedPixelEsp32Rmt, Ws2812Esp32Rmt, RGB8, RGBW8};

