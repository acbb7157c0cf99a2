//! Host-side model of the peripheral layer.
//!
//! Where no pulse-generating hardware is present, these modules stand in for
//! the hardware abstraction layer: the same names, holding plain values.

pub mod esp_idf_hal;
pub mod esp_idf_sys;
