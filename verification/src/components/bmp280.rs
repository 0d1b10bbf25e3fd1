//! Component for the BMP280 sensor.

use vstd::prelude::*;
use crate::capsules::bmp280::{State, BASE_ADDR, BMP280};

verus! {

/// Bytes of the sensor's buffer.
pub const BUFFER_SIZE: usize = 4;

/// Makes the driver of a BMP280 on the I2C bus.
pub struct BMP280Component {}

impl BMP280Component {
    pub fn new() -> (component: BMP280Component) {
        BMP280Component {  }
    }

    /// An idle driver with a zeroed buffer, and the I2C address that its
    /// device is to be made for.
    pub fn finalize(self) -> (r: (BMP280, u8))
        ensures
            r.0@.wf(),
            r.0@.state is Idle,
            r.0@.buffer == Some(Seq::new(BUFFER_SIZE as nat, |i: int| 0u8)),
            r.1 == BASE_ADDR,
    {
        let buffer: Vec<u8> = vec![0u8; BUFFER_SIZE];
        assert(buffer@ =~= Seq::new(BUFFER_SIZE as nat, |i: int| 0u8));
        (BMP280::new(buffer), BASE_ADDR)
    }
}

} // verus!
