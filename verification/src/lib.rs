//! Protocol and resource layer for a six-panel SPI clock display,
//! an addressable LED strip driven by a synthesized coprocessor program,
//! and two I2C devices sharing one bus through a move-based arbiter.

pub mod bell;
pub mod bme280;
pub mod buttons;
pub mod ds3231;
pub mod gl;
pub mod hardware;
pub mod images;
pub mod lcd_clock;
pub mod led_strip;
pub mod misc;
pub mod ports;
pub mod st7789vwx6;
pub mod state;
pub mod ws2812;
