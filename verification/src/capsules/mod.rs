//! Multiplexers, bus adapters and the drivers built on them.

pub mod bmp280;
pub mod bus;
pub mod esp_serial;
pub mod frame_buffer;
pub mod ft6x06;
pub mod l3gd20;
pub mod ls016b8uy;
pub mod lsm303dlhc;
pub mod memory_async;
pub mod modbus;
pub mod pressure;
pub mod pwm;
pub mod st7789h2;
pub mod temperature_stm;
pub mod timer;
pub mod touch;
pub mod virtual_adc;
pub mod virtual_i2c;
pub mod virtual_pwm;
