//! Driver for the L3GD20 three-axis gyroscope.

use vstd::prelude::*;
use crate::buffer::bytes_of;
use crate::hil::spi::{ClockPhase, ClockPolarity, SpiConfiguration, SpiTransfer};

verus! {

/// What the sensor answers when asked who it is.
pub const L3GD20_WHO_AM_I: u8 = 0xD4;

/// Register that holds the sensor's identity.
pub const L3GD20_REG_WHO_AM_I: u8 = 0x0F;

/// Set in a register address to read the register.
pub const L3GD20_READ: u8 = 0x80;

pub const L3GD20_TX_SIZE: usize = 100;

pub const L3GD20_RX_SIZE: usize = 100;

/// Full scale of the sensor, in degrees per second.
#[allow(non_camel_case_types)]
#[derive(Clone, Copy, Debug, PartialEq, Eq, Structural)]
pub enum SenzitivityScale {
    S_250,
    S_500,
    S_2000,
}

/// The driver of one sensor.
pub struct L3GD20 {
    txbuffer: Option<Vec<u8>>,
    rxbuffer: Option<Vec<u8>>,
}

/// The driver as a mathematical value: the two buffers, while it holds
/// them.
pub struct L3GD20View {
    pub txbuffer: Option<Seq<u8>>,
    pub rxbuffer: Option<Seq<u8>>,
}

impl View for L3GD20 {
    type V = L3GD20View;

    closed spec fn view(&self) -> L3GD20View {
        L3GD20View { txbuffer: bytes_of(self.txbuffer), rxbuffer: bytes_of(self.rxbuffer) }
    }
}

impl L3GD20 {
    /// A driver that owns a buffer to send from and one to receive into.
    pub fn new(txbuffer: Vec<u8>, rxbuffer: Vec<u8>) -> (driver: L3GD20)
        requires
            txbuffer@.len() == L3GD20_TX_SIZE,
            rxbuffer@.len() == L3GD20_RX_SIZE,
        ensures
            driver@ == (L3GD20View { txbuffer: Some(txbuffer@), rxbuffer: Some(rxbuffer@) }),
    {
        L3GD20 { txbuffer: Some(txbuffer), rxbuffer: Some(rxbuffer) }
    }

    /// Asks the sensor who it is. The answer arrives with the completion of
    /// the transfer, so nothing is known yet and the result is `false`.
    ///
    /// The transfer sends the address of the identity register, marked for
    /// reading, and one byte of filler; both buffers leave the driver with
    /// it. Without a buffer of at least two bytes to send from nothing is
    /// started.
    pub fn is_present(&mut self) -> (r: (bool, Option<SpiTransfer>))
        ensures
            !r.0,
            old(self)@.txbuffer is None || old(self)@.txbuffer->0.len() < 2 ==> r.1 is None
                && final(self)@ == old(self)@,
            old(self)@.txbuffer is Some && old(self)@.txbuffer->0.len() >= 2 ==> {
                &&& r.1 is Some
                &&& r.1->0.write_buffer@ == old(self)@.txbuffer->0.update(0, 0x8F).update(1, 0xFF)
                &&& bytes_of(r.1->0.read_buffer) == old(self)@.rxbuffer
                &&& r.1->0.len == 2
                &&& final(self)@ == (L3GD20View { txbuffer: None, rxbuffer: None })
            },
    {
        let ready: bool = match &self.txbuffer {
            Some(buf) => buf.len() >= 2,
            None => false,
        };
        if !ready {
            return (false, None);
        }
        match self.txbuffer.take() {
            Some(mut buf) => {
                buf[0] = 0x8F;
                buf[1] = 0xFF;
                let read_buffer = self.rxbuffer.take();
                (false, Some(SpiTransfer { write_buffer: buf, read_buffer, len: 2 }))
            },
            None => (false, None),
        }
    }

    /// The clock settings that the sensor needs.
    pub fn configure(&self) -> (c: SpiConfiguration)
        ensures
            c == (SpiConfiguration {
                cpol: ClockPolarity::IdleHigh,
                cpal: ClockPhase::SampleTrailing,
                rate: 1000000,
            }),
    {
        SpiConfiguration {
            cpol: ClockPolarity::IdleHigh,
            cpal: ClockPhase::SampleTrailing,
            rate: 1_000_000,
        }
    }

    /// The alarm fired: nothing to do.
    pub fn fired(&self) {
    }

    /// A transfer is over: the buffers return to the driver.
    pub fn read_write_done(
        &mut self,
        write_buffer: Vec<u8>,
        read_buffer: Option<Vec<u8>>,
        len: usize,
    )
        ensures
            final(self)@ == (L3GD20View {
                txbuffer: Some(write_buffer@),
                rxbuffer: if read_buffer is Some {
                    bytes_of(read_buffer)
                } else {
                    old(self)@.rxbuffer
                },
            }),
    {
        self.txbuffer = Some(write_buffer);
        match read_buffer {
            Some(buffer) => {
                self.rxbuffer = Some(buffer);
            },
            None => {},
        }
    }
}

} // verus!
