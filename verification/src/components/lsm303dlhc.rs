//! Component for the LSM303DLHC sensor.

use vstd::prelude::*;
use crate::capsules::lsm303dlhc::{Lsm303dlhc, Lsm303dlhcScale, Lsm303dlhcView, State, BUFFER_SIZE};

verus! {

/// Makes the driver of an LSM303DLHC whose two halves answer on two I2C
/// addresses.
pub struct Lsm303dlhcI2CComponent {
    pub accelerometer_address: u8,
    pub magnetometer_address: u8,
}

impl Lsm303dlhcI2CComponent {
    pub fn new(accelerometer_address: u8, magnetometer_address: u8) -> (component:
        Lsm303dlhcI2CComponent)
        ensures
            component == (Lsm303dlhcI2CComponent { accelerometer_address, magnetometer_address }),
    {
        Lsm303dlhcI2CComponent { accelerometer_address, magnetometer_address }
    }

    /// An idle driver with a zeroed buffer.
    pub fn finalize(self) -> (driver: Lsm303dlhc)
        ensures
            driver@ == (Lsm303dlhcView {
                callback: None,
                state: State::Idle,
                scale: Lsm303dlhcScale::Scale2G,
                high_resolution: false,
                buffer: Some(Seq::new(BUFFER_SIZE as nat, |i: int| 0u8)),
            }),
            driver@.wf(),
    {
        let buffer: Vec<u8> = vec![0u8; BUFFER_SIZE];
        assert(buffer@ =~= Seq::new(BUFFER_SIZE as nat, |i: int| 0u8));
        Lsm303dlhc::new(buffer)
    }
}

} // verus!
