[package]
name = "ws2812-esp32-rmt-driver"
version = "0.1.0"
edition = "2021"
publish = false

[dependencies]
heapless = "0.8"
embedded-graphics-core = "0.4"
smart-leds-trait = "0.3"
thiserror = "1"
