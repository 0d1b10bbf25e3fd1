//! Register-level logic of the on-chip peripherals.

pub mod registers;
pub mod dcdc;
pub mod flash;
pub mod pwm;
pub mod tim1;
pub mod i2c;
pub mod tim4;
