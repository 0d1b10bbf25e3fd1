//! Interfaces between the components and the hardware below them.

pub mod adc;
pub mod bus;
pub mod i2c;
pub mod memory_async;
pub mod screen;
pub mod spi;
pub mod touch;
pub mod uart;
