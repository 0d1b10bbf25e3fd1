//! Builders that make the drivers of a board and wire them to each other.
//!
//! A component holds what a driver is made from; `finalize` makes the
//! driver, with buffers of the usual sizes, and registers its clients.

pub mod adc;
pub mod bmp280;
pub mod bus;
pub mod esp_serial_component;
pub mod ft6x06;
pub mod i2c;
pub mod ls016b8uy;
pub mod lsm303dlhc;
pub mod memory_async;
pub mod pressure;
pub mod pwm;
pub mod st7789h2;
pub mod touch;
