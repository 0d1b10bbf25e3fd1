//! I2C controller in master mode.

use vstd::prelude::*;
use crate::chips::registers::Field;
use crate::returncode::ReturnCode;

verus! {

/// The registers of the controller that the driver uses.
#[derive(Clone, Copy, Debug, PartialEq, Eq, Structural)]
pub struct I2CRegisters {
    /// Control register 1.
    pub cr1: u32,
    /// Control register 2.
    pub cr2: u32,
    /// Interrupt and status register.
    pub isr: u32,
}

/// The transfer that is outstanding on the bus.
#[derive(Clone, Copy, Debug, PartialEq, Eq, Structural)]
pub enum I2CStatus {
    Idle,
    Writing,
    Reading,
    WritingOnly,
    ReadingOnly,
}

/// Peripheral enable bit of control register 1.
pub open spec fn pe() -> Field {
    Field { offset: 0, numbits: 1 }
}

/// Number of bytes field of control register 2.
pub open spec fn nbytes() -> Field {
    Field { offset: 16, numbits: 8 }
}

/// Slave address field of control register 2.
pub open spec fn sadd() -> Field {
    Field { offset: 0, numbits: 8 }
}

/// Transmit register empty bit of the status register.
pub open spec fn txe() -> Field {
    Field { offset: 0, numbits: 1 }
}

/// The controller as a mathematical value.
pub struct I2CView {
    pub registers: I2CRegisters,
    /// The controller's clock is on.
    pub clock: bool,
    pub master_client: Option<usize>,
    /// The buffer of the transfer, while the controller holds it.
    pub buffer: Option<Seq<u8>>,
    pub tx_position: u8,
    pub rx_position: u8,
    pub tx_len: u8,
    pub rx_len: u8,
    pub slave_address: u8,
    pub status: I2CStatus,
}

/// The controller.
pub struct I2C {
    registers: I2CRegisters,
    clock: bool,
    master_client: Option<usize>,
    buffer: Option<Vec<u8>>,
    tx_position: u8,
    rx_position: u8,
    tx_len: u8,
    rx_len: u8,
    slave_address: u8,
    status: I2CStatus,
}

impl View for I2C {
    type V = I2CView;

    closed spec fn view(&self) -> I2CView {
        I2CView {
            registers: self.registers,
            clock: self.clock,
            master_client: self.master_client,
            buffer: match self.buffer {
                Some(b) => Some(b@),
                None => None,
            },
            tx_position: self.tx_position,
            rx_position: self.rx_position,
            tx_len: self.tx_len,
            rx_len: self.rx_len,
            slave_address: self.slave_address,
            status: self.status,
        }
    }
}

impl I2C {
    /// An idle controller whose registers are all zero and whose clock is
    /// off.
    pub fn new() -> (i2c: I2C)
        ensures
            i2c@ == (I2CView {
                registers: I2CRegisters { cr1: 0, cr2: 0, isr: 0 },
                clock: false,
                master_client: None,
                buffer: None,
                tx_position: 0,
                rx_position: 0,
                tx_len: 0,
                rx_len: 0,
                slave_address: 0,
                status: I2CStatus::Idle,
            }),
    {
        I2C {
            registers: I2CRegisters { cr1: 0, cr2: 0, isr: 0 },
            clock: false,
            master_client: None,
            buffer: None,
            tx_position: 0,
            rx_position: 0,
            tx_len: 0,
            rx_len: 0,
            slave_address: 0,
            status: I2CStatus::Idle,
        }
    }

    /// The registers as they stand.
    pub fn registers(&self) -> (r: I2CRegisters)
        ensures
            r == self@.registers,
    {
        self.registers
    }

    /// Takes `registers` as what the controller holds.
    pub fn load(&mut self, registers: I2CRegisters)
        ensures
            final(self)@ == (I2CView { registers, ..old(self)@ }),
    {
        self.registers = registers;
    }

    /// The transfer outstanding on the bus.
    pub fn status(&self) -> (s: I2CStatus)
        ensures
            s == self@.status,
    {
        self.status
    }

    pub fn is_enabled_clock(&self) -> (r: bool)
        ensures
            r == self@.clock,
    {
        self.clock
    }

    pub fn enable_clock(&mut self)
        ensures
            final(self)@ == (I2CView { clock: true, ..old(self)@ }),
    {
        self.clock = true;
    }

    pub fn disable_clock(&mut self)
        ensures
            final(self)@ == (I2CView { clock: false, ..old(self)@ }),
    {
        self.clock = false;
    }

    /// An event on the bus; nothing is done about it yet.
    pub fn handle_event(&self) {
    }

    /// An error on the bus; nothing is done about it yet.
    pub fn handle_error(&self) {
    }

    /// An interrupt of the controller; nothing is done about it yet.
    pub fn handle_interrupt(&self) {
    }

    /// Registers the client that completions are addressed to.
    pub fn set_client(&mut self, master_client: usize)
        ensures
            final(self)@ == (I2CView { master_client: Some(master_client), ..old(self)@ }),
    {
        self.master_client = Some(master_client);
    }

    /// Enables the controller.
    pub fn enable(&mut self)
        ensures
            final(self)@ == (I2CView {
                registers: I2CRegisters {
                    cr1: pe().spec_modify(old(self)@.registers.cr1, 1),
                    ..old(self)@.registers
                },
                ..old(self)@
            }),
    {
        self.registers.cr1 = Field { offset: 0, numbits: 1 }.modify(self.registers.cr1, 1);
    }

    /// Disables the controller.
    pub fn disable(&mut self)
        ensures
            final(self)@ == (I2CView {
                registers: I2CRegisters {
                    cr1: pe().spec_modify(old(self)@.registers.cr1, 0),
                    ..old(self)@.registers
                },
                ..old(self)@
            }),
    {
        self.registers.cr1 = Field { offset: 0, numbits: 1 }.clear(self.registers.cr1);
    }

    /// Sends the first `len` bytes of `data` to the device at `addr`.
    ///
    /// An idle controller takes the buffer, notes the transfer and
    /// programs the byte count and the address; a buffer that it held
    /// before comes back. A busy controller does nothing and hands `data`
    /// back.
    pub fn write(&mut self, addr: u8, data: Vec<u8>, len: u8) -> (returned: Option<Vec<u8>>)
        ensures
            old(self)@.status is Idle ==> {
                &&& final(self)@ == (I2CView {
                    registers: I2CRegisters {
                        cr2: sadd().spec_modify(
                            nbytes().spec_modify(old(self)@.registers.cr2, len as u32),
                            addr as u32,
                        ),
                        isr: txe().spec_modify(old(self)@.registers.isr, 1),
                        ..old(self)@.registers
                    },
                    buffer: Some(data@),
                    tx_position: 0,
                    tx_len: len,
                    slave_address: addr,
                    status: I2CStatus::WritingOnly,
                    ..old(self)@
                })
                &&& match returned {
                    Some(b) => Some(b@),
                    None => None,
                } == old(self)@.buffer
            },
            !(old(self)@.status is Idle) ==> final(self)@ == old(self)@ && returned == Some(data),
    {
        match self.status {
            I2CStatus::Idle => {
                self.status = I2CStatus::WritingOnly;
                self.slave_address = addr;
                let previous = self.buffer.take();
                self.buffer = Some(data);
                self.tx_position = 0;
                self.tx_len = len;
                let cr2: u32 = Field { offset: 16, numbits: 8 }.modify(
                    self.registers.cr2,
                    len as u32,
                );
                self.registers.cr2 = Field { offset: 0, numbits: 8 }.modify(cr2, addr as u32);
                self.registers.isr = Field { offset: 0, numbits: 1 }.modify(self.registers.isr, 1);
                previous
            },
            _ => Some(data),
        }
    }

    /// Reading is not implemented: the buffer comes back at once.
    pub fn read(&self, addr: u8, buffer: Vec<u8>, len: u8) -> (returned: Vec<u8>)
        ensures
            returned == buffer,
    {
        buffer
    }

    /// Writing and then reading is not implemented: the buffer comes back
    /// at once.
    pub fn write_read(&self, addr: u8, data: Vec<u8>, write_len: u8, read_len: u8) -> (returned:
        Vec<u8>)
        ensures
            returned == data,
    {
        data
    }

    /// Transfers outside an I2C transaction are not implemented: the request
    /// is accepted and nothing happens.
    pub fn read_write_bytes(&self, len: usize) -> (r: ReturnCode)
        ensures
            r is SUCCESS,
    {
        ReturnCode::SUCCESS
    }
}

} // verus!
