//! Low-level LED pixel driver API.

pub mod color;
pub mod core_color;
pub mod esp32_rmt;
pub mod mock;

pub use esp32_rmt::Ws2812Esp32RmtDriver;
pub use esp32_rmt::Ws2812Esp32RmtDriverError;
