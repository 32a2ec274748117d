[package]
name = "lcd_clock"
version = "0.1.0"
edition = "2021"
publish = false

[dependencies]
pio = "0.2"
embedded-hal = "0.2"
fugit = "0.3"
cortex-m = "0.7"
rp-pico = "*"
unwrap-infallible = "*"
