//! Components for the bus adapters.

use vstd::prelude::*;
use crate::capsules::bus::{BusStatus, I2CMasterBus, I2CMasterBusView, SpiMasterBus, SpiMasterBusView};
use crate::hil::bus::{Bus, BusWidth};

verus! {

/// Makes the bus adapter of an SPI device.
pub struct SpiMasterBusComponent {}

impl SpiMasterBusComponent {
    pub fn new() -> (component: SpiMasterBusComponent) {
        SpiMasterBusComponent {  }
    }

    /// An idle adapter that owns `addr_buffer` and reports to `client`.
    pub fn finalize(self, addr_buffer: Vec<u8>, client: usize) -> (bus: SpiMasterBus)
        ensures
            bus@ == (SpiMasterBusView {
                read_write_buffer: None,
                bus_width: BusWidth::Bits8,
                client: Some(client),
                addr_buffer: Some(addr_buffer@),
                status: BusStatus::Idle,
            }),
    {
        let mut bus = SpiMasterBus::new(addr_buffer);
        bus.set_client(client);
        bus
    }
}

/// Makes the bus adapter of the I2C device at an address.
pub struct I2CMasterBusComponent {
    pub address: u8,
}

impl I2CMasterBusComponent {
    pub fn new(address: u8) -> (component: I2CMasterBusComponent)
        ensures
            component.address == address,
    {
        I2CMasterBusComponent { address }
    }

    /// An idle adapter with a one-byte address buffer that reports to
    /// `client`, and the I2C address that its device is to be made for.
    pub fn finalize(self, client: usize) -> (r: (I2CMasterBus, u8))
        ensures
            r.0@ == (I2CMasterBusView {
                len: 0,
                client: Some(client),
                addr_buffer: Some(seq![0u8]),
                status: BusStatus::Idle,
            }),
            r.1 == self.address,
    {
        let addr_buffer: Vec<u8> = vec![0u8; 1];
        assert(addr_buffer@ =~= seq![0u8]);
        let mut bus = I2CMasterBus::new(addr_buffer);
        bus.set_client(client);
        (bus, self.address)
    }
}

} // verus!
