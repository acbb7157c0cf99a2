//! Host-side model of the hardware abstraction layer.

pub use super::esp_idf_sys as sys;

pub mod gpio;
pub mod peripheral;
pub mod peripherals;
pub mod rmt;
pub mod units;
