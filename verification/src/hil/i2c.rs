//! What an I2C device at one address is asked to do, and what it reports.

use vstd::prelude::*;

verus! {

/// How an I2C transfer ended.
#[derive(Clone, Copy, Debug, PartialEq, Eq, Structural)]
pub enum Error {
    /// The slave did not acknowledge its address.
    AddressNak,
    /// The slave did not acknowledge a data byte.
    DataNak,
    /// Another master took the bus.
    ArbitrationLost,
    /// The receiver was overrun.
    Overrun,
    /// The transfer completed.
    CommandComplete,
}

/// One transfer on an I2C device. The buffer moves to the device and comes
/// back with the completion.
#[derive(Debug, PartialEq, Eq)]
pub enum I2cTransfer {
    /// Send the first `len` bytes of `buffer`.
    Write { buffer: Vec<u8>, len: u8 },
    /// Receive `len` bytes into `buffer`.
    Read { buffer: Vec<u8>, len: u8 },
    /// Send `write_len` bytes, then receive `read_len` bytes into the same
    /// buffer.
    WriteRead { buffer: Vec<u8>, write_len: u8, read_len: u8 },
}

/// A transfer as a mathematical value.
pub enum I2cTransferView {
    Write { buffer: Seq<u8>, len: u8 },
    Read { buffer: Seq<u8>, len: u8 },
    WriteRead { buffer: Seq<u8>, write_len: u8, read_len: u8 },
}

impl View for I2cTransfer {
    type V = I2cTransferView;

    open spec fn view(&self) -> I2cTransferView {
        match self {
            I2cTransfer::Write { buffer, len } => I2cTransferView::Write {
                buffer: buffer@,
                len: *len,
            },
            I2cTransfer::Read { buffer, len } => I2cTransferView::Read {
                buffer: buffer@,
                len: *len,
            },
            I2cTransfer::WriteRead { buffer, write_len, read_len } => I2cTransferView::WriteRead {
                buffer: buffer@,
                write_len: *write_len,
                read_len: *read_len,
            },
        }
    }
}

impl I2cTransfer {
    /// The bytes of the buffer that travels with the transfer.
    pub open spec fn spec_buffer(&self) -> Seq<u8> {
        match self {
            I2cTransfer::Write { buffer, .. } => buffer@,
            I2cTransfer::Read { buffer, .. } => buffer@,
            I2cTransfer::WriteRead { buffer, .. } => buffer@,
        }
    }

    /// Takes the buffer out of the transfer.
    pub fn into_buffer(self) -> (b: Vec<u8>)
        ensures
            b@ == self.spec_buffer(),
    {
        match self {
            I2cTransfer::Write { buffer, .. } => buffer,
            I2cTransfer::Read { buffer, .. } => buffer,
            I2cTransfer::WriteRead { buffer, .. } => buffer,
        }
    }
}

} // verus!
