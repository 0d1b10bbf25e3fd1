//! Components for the I2C multiplexer and its devices.

use vstd::prelude::*;
use crate::capsules::virtual_i2c::{I2CDevice, MuxI2C, MuxI2CView, Op};

verus! {

/// Makes the multiplexer of an I2C controller.
pub struct I2CMuxComponent {}

impl I2CMuxComponent {
    pub fn new() -> (component: I2CMuxComponent) {
        I2CMuxComponent {  }
    }

    /// A multiplexer with no devices and the controller free.
    pub fn finalize(self) -> (mux: MuxI2C)
        ensures
            mux@.devices.len() == 0,
            mux@.enabled == 0,
            mux@.inflight is None,
            mux@.wf(),
    {
        MuxI2C::new()
    }
}

/// Makes a device on the bus, at an address.
pub struct I2CComponent {
    pub address: u8,
}

impl I2CComponent {
    pub fn new(address: u8) -> (component: I2CComponent)
        ensures
            component.address == address,
    {
        I2CComponent { address }
    }

    /// Registers a device at the address with `mux` and returns its index.
    pub fn finalize(self, mux: &mut MuxI2C) -> (index: usize)
        requires
            old(mux)@.wf(),
        ensures
            index == old(mux)@.devices.len(),
            final(mux)@ == (MuxI2CView {
                devices: old(mux)@.devices.push(
                    I2CDevice {
                        addr: self.address,
                        enabled: false,
                        buffer: None,
                        operation: Op::Idle,
                        client: None,
                    },
                ),
                ..old(mux)@
            }),
            final(mux)@.wf(),
    {
        mux.add_device(self.address)
    }
}

} // verus!
