//! A memory-like device behind an SPI chip select.

use vstd::prelude::*;
use crate::buffer::bytes_of;
use crate::hil::memory_async::{BusWidth, Memory, MemoryCompletion};
use crate::hil::spi::SpiTransfer;
use crate::returncode::ReturnCode;

verus! {

/// Bytes that one item of this width takes.
pub open spec fn spec_bus_width_in_bytes(bus_width: BusWidth) -> usize {
    match bus_width {
        BusWidth::Bits8 => 1,
        BusWidth::Bits16 => 2,
        BusWidth::Bits32 => 4,
        BusWidth::Bits64 => 8,
    }
}

/// Bytes that one item of this width takes.
#[verifier::when_used_as_spec(spec_bus_width_in_bytes)]
pub fn bus_width_in_bytes(bus_width: BusWidth) -> (bytes: usize)
    ensures
        bytes == spec_bus_width_in_bytes(bus_width),
{
    match bus_width {
        BusWidth::Bits8 => 1,
        BusWidth::Bits16 => 2,
        BusWidth::Bits32 => 4,
        BusWidth::Bits64 => 8,
    }
}

/// The address as the single byte that goes on the wire.
pub open spec fn address_byte(addr: usize) -> u8 {
    (addr % 256) as u8
}

/// `buffer` with the address in front and its first `len` bytes moved up by
/// one to make room.
pub open spec fn with_address(buffer: Seq<u8>, addr: usize, len: int) -> Seq<u8> {
    Seq::new(
        buffer.len(),
        |i: int|
            if i == 0 {
                address_byte(addr)
            } else if i <= len {
                buffer[i - 1]
            } else {
                buffer[i]
            },
    )
}

/// Moves the first `len` bytes of `buffer` up by one and writes the address
/// in front of them.
pub fn insert_address(buffer: &mut Vec<u8>, addr: usize, len: usize)
    requires
        len < old(buffer)@.len(),
    ensures
        final(buffer)@ == with_address(old(buffer)@, addr, len as int),
{
    let capacity: usize = buffer.len();
    let mut index: usize = len;
    while index > 0
        invariant
            index <= len < capacity,
            buffer@.len() == capacity,
            capacity == old(buffer)@.len(),
            forall|j: int| 0 <= j <= index ==> buffer@[j] == old(buffer)@[j],
            forall|j: int| index < j <= len ==> buffer@[j] == old(buffer)@[j - 1],
            forall|j: int| len < j < capacity ==> buffer@[j] == old(buffer)@[j],
        decreases index,
    {
        let byte: u8 = buffer[index - 1];
        buffer[index] = byte;
        index -= 1;
    }
    buffer[0] = (addr % 256) as u8;
    assert(buffer@ =~= with_address(old(buffer)@, addr, len as int));
}

/// The memory protocol over an SPI device.
pub struct SpiMemory {
    read_write_buffer: Option<Vec<u8>>,
    client: Option<usize>,
}

/// The SPI memory as a mathematical value.
pub struct SpiMemoryView {
    /// The bytes clocked out during a read, while the device holds them.
    pub read_write_buffer: Option<Seq<u8>>,
    pub client: Option<usize>,
}

impl SpiMemoryView {
    /// A read of `len` bytes into a buffer of `capacity` bytes can start:
    /// there are bytes to clock out that cover it, and the caller's buffer
    /// has room for more than `len`.
    pub open spec fn accepts_read(self, capacity: nat, len: usize) -> bool {
        &&& self.read_write_buffer is Some
        &&& self.read_write_buffer->0.len() >= len
        &&& self.read_write_buffer->0.len() > 0
        &&& capacity > len
    }

    /// A read of `len` bytes at an address can start: as for a read, and
    /// the bytes to clock out also have room for the address.
    pub open spec fn accepts_read_addr(self, capacity: nat, len: usize) -> bool {
        &&& self.read_write_buffer is Some
        &&& self.read_write_buffer->0.len() > len
        &&& capacity > len
    }
}

impl View for SpiMemory {
    type V = SpiMemoryView;

    closed spec fn view(&self) -> SpiMemoryView {
        SpiMemoryView {
            read_write_buffer: bytes_of(self.read_write_buffer),
            client: self.client,
        }
    }
}

impl SpiMemory {
    /// A device without a client and without bytes to clock out yet.
    pub fn new() -> (memory: SpiMemory)
        ensures
            memory@ == (SpiMemoryView { read_write_buffer: None, client: None }),
    {
        SpiMemory { read_write_buffer: None, client: None }
    }

    /// Gives the device the bytes to clock out during reads, and hands back
    /// the buffer it held for that before, if any.
    pub fn set_read_write_buffer(&mut self, buffer: Vec<u8>) -> (previous: Option<Vec<u8>>)
        ensures
            final(self)@ == (SpiMemoryView { read_write_buffer: Some(buffer@), ..old(self)@ }),
            bytes_of(previous) == old(self)@.read_write_buffer,
    {
        let previous = self.read_write_buffer.take();
        self.read_write_buffer = Some(buffer);
        previous
    }

    /// The SPI device is done with a transfer of `len` bytes.
    ///
    /// After a write the buffer goes back to the client; after a read the
    /// client gets the buffer that was read into and the device keeps the
    /// bytes it clocked out.
    pub fn read_write_done(
        &mut self,
        write_buffer: Vec<u8>,
        read_buffer: Option<Vec<u8>>,
        len: usize,
    ) -> (done: MemoryCompletion)
        ensures
            done.client == old(self)@.client,
            done.len == len,
            read_buffer is Some ==> done.buffer == read_buffer->0 && final(self)@ == (
            SpiMemoryView { read_write_buffer: Some(write_buffer@), ..old(self)@ }),
            read_buffer is None ==> done.buffer == write_buffer && final(self)@ == old(self)@,
    {
        match read_buffer {
            Some(buf) => {
                self.read_write_buffer = Some(write_buffer);
                MemoryCompletion { client: self.client, buffer: buf, len }
            },
            None => MemoryCompletion { client: self.client, buffer: write_buffer, len },
        }
    }
}

impl Memory for SpiMemory {
    type Transfer = SpiTransfer;

    /// Sends the low byte of `addr` followed by data from `buffer`: the
    /// first `len` bytes of the buffer move up by one, the address goes in
    /// front, and `len` bytes are sent.
    ///
    /// Accepted exactly when both widths are eight bits and the buffer
    /// holds more than `len` bytes: `ENOSUPPORT` for another width,
    /// `ENOMEM` for a short buffer.
    fn write_addr(
        &mut self,
        addr_width: BusWidth,
        addr: usize,
        data_width: BusWidth,
        buffer: Vec<u8>,
        len: usize,
    ) -> (r: Result<SpiTransfer, (ReturnCode, Vec<u8>)>)
        ensures
            r is Ok <==> addr_width is Bits8 && data_width is Bits8 && buffer@.len() > len,
            r is Ok ==> {
                &&& r->Ok_0.write_buffer@ == with_address(buffer@, addr, len as int)
                &&& r->Ok_0.read_buffer is None
                &&& r->Ok_0.len == len
                &&& final(self)@ == old(self)@
            },
            r is Err ==> r->Err_0.0 == if !(addr_width is Bits8) || (buffer@.len() > len && !(
            data_width is Bits8)) {
                ReturnCode::ENOSUPPORT
            } else {
                ReturnCode::ENOMEM
            },
    {
        match addr_width {
            BusWidth::Bits8 => {
                if buffer.len() > len {
                    match data_width {
                        BusWidth::Bits8 => {
                            let mut buffer = buffer;
                            insert_address(&mut buffer, addr, len);
                            Ok(SpiTransfer { write_buffer: buffer, read_buffer: None, len })
                        },
                        _ => Err((ReturnCode::ENOSUPPORT, buffer)),
                    }
                } else {
                    Err((ReturnCode::ENOMEM, buffer))
                }
            },
            _ => Err((ReturnCode::ENOSUPPORT, buffer)),
        }
    }

    /// Clocks out the low byte of `addr` followed by the bytes that the
    /// device holds for reads, and reads `len` bytes into `buffer`.
    ///
    /// Accepted exactly when both widths are eight bits, the device holds
    /// more than `len` bytes to clock out and the buffer has room for more
    /// than `len`: `ENOSUPPORT` for another width, `ENOMEM` otherwise.
    fn read_addr(
        &mut self,
        addr_width: BusWidth,
        addr: usize,
        data_width: BusWidth,
        buffer: Vec<u8>,
        len: usize,
    ) -> (r: Result<SpiTransfer, (ReturnCode, Vec<u8>)>)
        ensures
            r is Ok <==> addr_width is Bits8 && data_width is Bits8 && old(
                self,
            )@.accepts_read_addr(buffer@.len(), len),
            r is Ok ==> {
                &&& r->Ok_0.write_buffer@ == old(self)@.read_write_buffer->0.update(
                    0,
                    address_byte(addr),
                )
                &&& r->Ok_0.read_buffer == Some(buffer)
                &&& r->Ok_0.len == len
                &&& final(self)@ == (SpiMemoryView { read_write_buffer: None, ..old(self)@ })
            },
            r is Err ==> r->Err_0.0 == if !(addr_width is Bits8) || (old(
                self,
            )@.accepts_read_addr(buffer@.len(), len) && !(data_width is Bits8)) {
                ReturnCode::ENOSUPPORT
            } else {
                ReturnCode::ENOMEM
            },
    {
        match addr_width {
            BusWidth::Bits8 => {
                match self.read_write_buffer.take() {
                    None => Err((ReturnCode::ENOMEM, buffer)),
                    Some(mut write_buffer) => {
                        if write_buffer.len() > len && buffer.len() > len {
                            match data_width {
                                BusWidth::Bits8 => {
                                    write_buffer[0] = (addr % 256) as u8;
                                    Ok(
                                        SpiTransfer {
                                            write_buffer,
                                            read_buffer: Some(buffer),
                                            len,
                                        },
                                    )
                                },
                                _ => {
                                    self.read_write_buffer = Some(write_buffer);
                                    Err((ReturnCode::ENOSUPPORT, buffer))
                                },
                            }
                        } else {
                            self.read_write_buffer = Some(write_buffer);
                            Err((ReturnCode::ENOMEM, buffer))
                        }
                    },
                }
            },
            _ => Err((ReturnCode::ENOSUPPORT, buffer)),
        }
    }

    /// Sends the first `len` bytes of `buffer`.
    ///
    /// Accepted exactly when the width is eight bits and the buffer holds
    /// `len` bytes: `ENOSUPPORT` for another width, `ENOMEM` for a short
    /// buffer.
    fn write(&mut self, data_width: BusWidth, buffer: Vec<u8>, len: usize) -> (r: Result<
        SpiTransfer,
        (ReturnCode, Vec<u8>),
    >)
        ensures
            r is Ok <==> data_width is Bits8 && buffer@.len() >= len,
            r is Ok ==> {
                &&& r->Ok_0.write_buffer == buffer
                &&& r->Ok_0.read_buffer is None
                &&& r->Ok_0.len == len
                &&& final(self)@ == old(self)@
            },
            r is Err ==> r->Err_0.0 == if data_width is Bits8 {
                ReturnCode::ENOMEM
            } else {
                ReturnCode::ENOSUPPORT
            },
    {
        match data_width {
            BusWidth::Bits8 => {
                if buffer.len() >= len {
                    Ok(SpiTransfer { write_buffer: buffer, read_buffer: None, len })
                } else {
                    Err((ReturnCode::ENOMEM, buffer))
                }
            },
            _ => Err((ReturnCode::ENOSUPPORT, buffer)),
        }
    }

    /// Reads `len` bytes into `buffer` while clocking out the bytes that
    /// the device holds for that purpose.
    ///
    /// Accepted exactly when the width is eight bits, the device holds at
    /// least `len` bytes to clock out, and at least one, and the buffer has
    /// room for more than `len`: `ENOSUPPORT` for another width, `ENOMEM`
    /// otherwise.
    fn read(&mut self, data_width: BusWidth, buffer: Vec<u8>, len: usize) -> (r: Result<
        SpiTransfer,
        (ReturnCode, Vec<u8>),
    >)
        ensures
            r is Ok <==> data_width is Bits8 && old(self)@.accepts_read(buffer@.len(), len),
            r is Ok ==> {
                &&& r->Ok_0.write_buffer@ == old(self)@.read_write_buffer->0
                &&& r->Ok_0.read_buffer == Some(buffer)
                &&& r->Ok_0.len == len
                &&& final(self)@ == (SpiMemoryView { read_write_buffer: None, ..old(self)@ })
            },
            r is Err ==> r->Err_0.0 == if data_width is Bits8 {
                ReturnCode::ENOMEM
            } else {
                ReturnCode::ENOSUPPORT
            },
    {
        match data_width {
            BusWidth::Bits8 => {
                match self.read_write_buffer.take() {
                    None => Err((ReturnCode::ENOMEM, buffer)),
                    Some(write_buffer) => {
                        if write_buffer.len() >= len && write_buffer.len() > 0 && buffer.len()
                            > len {
                            Ok(SpiTransfer { write_buffer, read_buffer: Some(buffer), len })
                        } else {
                            self.read_write_buffer = Some(write_buffer);
                            Err((ReturnCode::ENOMEM, buffer))
                        }
                    },
                }
            },
            _ => Err((ReturnCode::ENOSUPPORT, buffer)),
        }
    }

    fn set_client(&mut self, client: usize)
        ensures
            final(self)@ == (SpiMemoryView { client: Some(client), ..old(self)@ }),
    {
        self.client = Some(client);
    }
}

} // verus!
