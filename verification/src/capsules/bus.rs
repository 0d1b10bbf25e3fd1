//! The bus protocol on top of an SPI device and on top of an I2C device.
//!
//! An adapter turns one bus request into one transfer of its transport
//! and the transport's completion into the bus completion. It keeps no
//! queue: its client waits for each completion before the next request.

use vstd::prelude::*;
use crate::buffer::bytes_of;
use crate::hil::bus::{byte_count, Bus, BusWidth, Completion, CompletionView};
use crate::hil::i2c::{Error, I2cTransfer};
use crate::hil::spi::{ClockPhase, ClockPolarity, SpiConfiguration, SpiTransfer};
use crate::returncode::ReturnCode;

verus! {

/// The step of a transaction that is outstanding on the transport.
#[derive(Clone, Copy, Debug, PartialEq, Eq, Structural)]
pub enum BusStatus {
    Idle,
    SetAddress,
    Write,
    Read,
}

/// The address as the single byte that goes on the wire.
pub open spec fn address_byte(addr: usize) -> u8 {
    (addr % 256) as u8
}

/*********** SPI ************/

/// The bus protocol over an SPI device.
pub struct SpiMasterBus {
    read_write_buffer: Option<Vec<u8>>,
    bus_width: BusWidth,
    client: Option<usize>,
    addr_buffer: Option<Vec<u8>>,
    status: BusStatus,
}

/// The SPI adapter as a mathematical value.
pub struct SpiMasterBusView {
    /// The bytes clocked out during a read, while the adapter holds them.
    pub read_write_buffer: Option<Seq<u8>>,
    /// Width of the items of the transfer last started.
    pub bus_width: BusWidth,
    pub client: Option<usize>,
    /// The one-byte buffer for the address, while the adapter holds it.
    pub addr_buffer: Option<Seq<u8>>,
    pub status: BusStatus,
}

impl SpiMasterBusView {
    /// `set_addr` is accepted: the width is eight bits and the adapter holds
    /// an address buffer with room for the byte.
    pub open spec fn accepts_set_addr(self, addr_width: BusWidth) -> bool {
        addr_width is Bits8 && self.addr_buffer is Some && self.addr_buffer->0.len() > 0
    }

    /// The code that `set_addr` answers with.
    pub open spec fn set_addr_code(self, addr_width: BusWidth) -> ReturnCode {
        if !(addr_width is Bits8) {
            ReturnCode::ENOSUPPORT
        } else if self.accepts_set_addr(addr_width) {
            ReturnCode::SUCCESS
        } else {
            ReturnCode::ENOMEM
        }
    }

    /// `read` is accepted: both the caller's buffer and the bytes to clock
    /// out cover the transfer, and there is at least one byte to clock out.
    pub open spec fn accepts_read(self, data_width: BusWidth, capacity: nat, len: usize) -> bool {
        &&& self.read_write_buffer is Some
        &&& len * data_width.spec_width_in_bytes() <= self.read_write_buffer->0.len()
        &&& self.read_write_buffer->0.len() > 0
        &&& len * data_width.spec_width_in_bytes() <= capacity
    }

    /// `write` is accepted: the buffer holds the bytes.
    pub open spec fn accepts_write(data_width: BusWidth, capacity: nat, len: usize) -> bool {
        len * data_width.spec_width_in_bytes() <= capacity
    }

    /// The adapter after an accepted `set_addr`: the address buffer is with
    /// the device.
    pub open spec fn after_set_addr(self) -> SpiMasterBusView {
        SpiMasterBusView { addr_buffer: None, status: BusStatus::SetAddress, ..self }
    }

    /// The adapter after an accepted `write` of items of `data_width`.
    pub open spec fn after_write(self, data_width: BusWidth) -> SpiMasterBusView {
        SpiMasterBusView { bus_width: data_width, status: BusStatus::Write, ..self }
    }

    /// The adapter after an accepted `read` of items of `data_width`: the
    /// bytes to clock out are with the device.
    pub open spec fn after_read(self, data_width: BusWidth) -> SpiMasterBusView {
        SpiMasterBusView {
            read_write_buffer: None,
            bus_width: data_width,
            status: BusStatus::Read,
            ..self
        }
    }

    /// The completion reported when the transport is done with a transfer of
    /// `len` bytes.
    pub open spec fn completion(
        self,
        write_buffer: Seq<u8>,
        read_buffer: Option<Seq<u8>>,
        len: usize,
    ) -> CompletionView {
        if self.status is SetAddress {
            CompletionView { client: self.client, buffer: None, len: 0 }
        } else {
            CompletionView {
                client: self.client,
                buffer: Some(
                    if read_buffer is Some {
                        read_buffer->0
                    } else {
                        write_buffer
                    },
                ),
                len: len / self.bus_width.spec_width_in_bytes(),
            }
        }
    }

    /// The adapter after the transport is done: idle again, with the address
    /// buffer or the bytes to clock out back in their slot.
    pub open spec fn after_completion(
        self,
        write_buffer: Seq<u8>,
        read_buffer: Option<Seq<u8>>,
    ) -> SpiMasterBusView {
        if self.status is SetAddress {
            SpiMasterBusView { addr_buffer: Some(write_buffer), status: BusStatus::Idle, ..self }
        } else if read_buffer is Some {
            SpiMasterBusView {
                read_write_buffer: Some(write_buffer),
                status: BusStatus::Idle,
                ..self
            }
        } else {
            SpiMasterBusView { status: BusStatus::Idle, ..self }
        }
    }
}

/// No buffer is lost or doubled by a write on the SPI adapter: the buffer
/// handed in is the one that the device is given, and when the device hands
/// it back, the completion carries it to the client and the adapter holds
/// what it held before.
pub proof fn lemma_spi_write_returns_buffer(
    s: SpiMasterBusView,
    data_width: BusWidth,
    buffer: Seq<u8>,
    len: usize,
    transferred: usize,
)
    requires
        s.status is Idle,
        SpiMasterBusView::accepts_write(data_width, buffer.len(), len),
    ensures
        ({
            let busy = s.after_write(data_width);
            let done = busy.completion(buffer, None, transferred);
            let idle = busy.after_completion(buffer, None);
            &&& done.buffer == Some(buffer)
            &&& done.len == transferred / data_width.spec_width_in_bytes()
            &&& idle.status is Idle
            &&& idle.addr_buffer == s.addr_buffer
            &&& idle.read_write_buffer == s.read_write_buffer
        }),
{
}

/// No buffer is lost or doubled by a read on the SPI adapter: the device is
/// given the adapter's bytes to clock out and the caller's buffer; when it
/// hands both back, the completion carries the caller's buffer to the
/// client and the bytes to clock out are in the adapter again.
pub proof fn lemma_spi_read_returns_buffers(
    s: SpiMasterBusView,
    data_width: BusWidth,
    buffer: Seq<u8>,
    len: usize,
    received: Seq<u8>,
    transferred: usize,
)
    requires
        s.status is Idle,
        s.accepts_read(data_width, buffer.len(), len),
    ensures
        ({
            let filler = s.read_write_buffer->0;
            let busy = s.after_read(data_width);
            let done = busy.completion(filler, Some(received), transferred);
            let idle = busy.after_completion(filler, Some(received));
            &&& busy.read_write_buffer is None
            &&& done.buffer == Some(received)
            &&& idle.status is Idle
            &&& idle.read_write_buffer == Some(filler)
            &&& idle.addr_buffer == s.addr_buffer
        }),
{
}

/// Setting the address on the SPI adapter: the address buffer goes to the
/// device with the low byte of the address in front, comes back into the
/// adapter with the completion, and the client is told without a buffer.
pub proof fn lemma_spi_set_addr(s: SpiMasterBusView, addr: usize, transferred: usize)
    requires
        s.status is Idle,
        s.accepts_set_addr(BusWidth::Bits8),
    ensures
        ({
            let sent = s.addr_buffer->0.update(0, address_byte(addr));
            let busy = s.after_set_addr();
            let done = busy.completion(sent, None, transferred);
            let idle = busy.after_completion(sent, None);
            &&& s.set_addr_code(BusWidth::Bits8) is SUCCESS
            &&& busy.status is SetAddress
            &&& done == (CompletionView { client: s.client, buffer: None, len: 0 })
            &&& idle.status is Idle
            &&& idle.addr_buffer == Some(sent)
            &&& idle.read_write_buffer == s.read_write_buffer
        }),
{
}

impl View for SpiMasterBus {
    type V = SpiMasterBusView;

    closed spec fn view(&self) -> SpiMasterBusView {
        SpiMasterBusView {
            read_write_buffer: bytes_of(self.read_write_buffer),
            bus_width: self.bus_width,
            client: self.client,
            addr_buffer: bytes_of(self.addr_buffer),
            status: self.status,
        }
    }
}

impl SpiMasterBus {
    /// An idle adapter that owns `addr_buffer` for addresses.
    pub fn new(addr_buffer: Vec<u8>) -> (bus: SpiMasterBus)
        ensures
            bus@ == (SpiMasterBusView {
                read_write_buffer: None,
                bus_width: BusWidth::Bits8,
                client: None,
                addr_buffer: Some(addr_buffer@),
                status: BusStatus::Idle,
            }),
    {
        SpiMasterBus {
            read_write_buffer: None,
            bus_width: BusWidth::Bits8,
            client: None,
            addr_buffer: Some(addr_buffer),
            status: BusStatus::Idle,
        }
    }

    /// Gives the adapter the bytes to clock out during reads, and hands back
    /// the buffer it held for that before, if any.
    pub fn set_read_write_buffer(&mut self, buffer: Vec<u8>) -> (previous: Option<Vec<u8>>)
        ensures
            final(self)@ == (SpiMasterBusView {
                read_write_buffer: Some(buffer@),
                ..old(self)@
            }),
            bytes_of(previous) == old(self)@.read_write_buffer,
    {
        let previous = self.read_write_buffer.take();
        self.read_write_buffer = Some(buffer);
        previous
    }

    /// The clock settings to apply to the device. The adapter itself is not
    /// affected.
    pub fn configure(&self, cpol: ClockPolarity, cpal: ClockPhase, rate: u32) -> (c:
        SpiConfiguration)
        ensures
            c == (SpiConfiguration { cpol, cpal, rate }),
    {
        SpiConfiguration { cpol, cpal, rate }
    }

    /// The step outstanding on the device.
    pub fn status(&self) -> (s: BusStatus)
        ensures
            s == self@.status,
    {
        self.status
    }

    /// Whether the adapter holds the bytes to clock out during a read.
    pub fn has_read_write_buffer(&self) -> (r: bool)
        ensures
            r == (self@.read_write_buffer is Some),
    {
        self.read_write_buffer.is_some()
    }

    /// The device is done with a transfer of `len` bytes.
    ///
    /// After `set_addr` the address buffer returns to the adapter and the
    /// client is told so without a buffer. After a write the buffer goes
    /// back to the client; after a read the client gets the buffer that was
    /// read into and the adapter keeps the bytes it clocked out. The length
    /// reported counts items of the width that the transfer was started
    /// with. The adapter is idle afterwards.
    pub fn read_write_done(
        &mut self,
        write_buffer: Vec<u8>,
        read_buffer: Option<Vec<u8>>,
        len: usize,
    ) -> (done: Completion)
        requires
            !(old(self)@.status is Idle),
            old(self)@.status is SetAddress ==> read_buffer is None,
        ensures
            done@ == old(self)@.completion(write_buffer@, bytes_of(read_buffer), len),
            final(self)@ == old(self)@.after_completion(write_buffer@, bytes_of(read_buffer)),
            final(self)@.status is Idle,
            old(self)@.status is SetAddress ==> done.buffer is None,
            !(old(self)@.status is SetAddress) && read_buffer is Some ==> done.buffer
                == read_buffer,
            !(old(self)@.status is SetAddress) && read_buffer is None ==> done.buffer == Some(
                write_buffer,
            ),
    {
        let status = self.status;
        self.status = BusStatus::Idle;
        match status {
            BusStatus::SetAddress => {
                self.addr_buffer = Some(write_buffer);
                Completion { client: self.client, buffer: None, len: 0 }
            },
            _ => {
                let items: usize = len / self.bus_width.width_in_bytes();
                match read_buffer {
                    Some(buf) => {
                        self.read_write_buffer = Some(write_buffer);
                        Completion { client: self.client, buffer: Some(buf), len: items }
                    },
                    None => Completion {
                        client: self.client,
                        buffer: Some(write_buffer),
                        len: items,
                    },
                }
            },
        }
    }
}

impl Bus for SpiMasterBus {
    type Transfer = SpiTransfer;

    open spec fn spec_idle(&self) -> bool {
        self@.status is Idle
    }

    open spec fn spec_read_ready(&self) -> bool {
        self@.read_write_buffer is Some
    }

    /// Sends the low byte of `addr` to the device from the address buffer.
    ///
    /// A width other than eight bits is refused with `ENOSUPPORT`; a missing
    /// or empty address buffer with `ENOMEM`.
    fn set_addr(&mut self, addr_width: BusWidth, addr: usize) -> (r: (
        ReturnCode,
        Option<SpiTransfer>,
    ))
        ensures
            r.0 == old(self)@.set_addr_code(addr_width),
            r.0 is SUCCESS ==> {
                &&& final(self)@ == old(self)@.after_set_addr()
                &&& r.1->0.write_buffer@ == old(self)@.addr_buffer->0.update(
                    0,
                    address_byte(addr),
                )
                &&& r.1->0.read_buffer is None
                &&& r.1->0.len == 1
            },
    {
        match addr_width {
            BusWidth::Bits8 => {
                match self.addr_buffer.take() {
                    None => (ReturnCode::ENOMEM, None),
                    Some(mut buffer) => {
                        if buffer.len() == 0 {
                            self.addr_buffer = Some(buffer);
                            (ReturnCode::ENOMEM, None)
                        } else {
                            buffer[0] = (addr % 256) as u8;
                            self.status = BusStatus::SetAddress;
                            (
                                ReturnCode::SUCCESS,
                                Some(
                                    SpiTransfer { write_buffer: buffer, read_buffer: None, len: 1 },
                                ),
                            )
                        }
                    },
                }
            },
            _ => (ReturnCode::ENOSUPPORT, None),
        }
    }

    /// Sends the first `len` items of `buffer` to the device as they are.
    ///
    /// Accepted exactly when the buffer holds that many bytes; otherwise
    /// the buffer comes back with `ENOMEM`.
    fn write(&mut self, data_width: BusWidth, buffer: Vec<u8>, len: usize) -> (r: Result<
        SpiTransfer,
        (ReturnCode, Vec<u8>),
    >)
        ensures
            r is Ok <==> SpiMasterBusView::accepts_write(data_width, buffer@.len(), len),
            r is Ok ==> {
                &&& final(self)@ == old(self)@.after_write(data_width)
                &&& r->Ok_0.write_buffer == buffer
                &&& r->Ok_0.read_buffer is None
                &&& r->Ok_0.len == len * data_width.spec_width_in_bytes()
            },
    {
        let bytes: usize = data_width.width_in_bytes();
        match byte_count(len, bytes, buffer.len()) {
            Some(count) => {
                self.bus_width = data_width;
                self.status = BusStatus::Write;
                Ok(SpiTransfer { write_buffer: buffer, read_buffer: None, len: count })
            },
            None => Err((ReturnCode::ENOMEM, buffer)),
        }
    }

    /// Reads `len` items into `buffer` while clocking out the bytes that the
    /// adapter holds for that purpose.
    ///
    /// Accepted exactly when both buffers cover the transfer and there is a
    /// byte to clock out; otherwise the caller's buffer comes back with
    /// `ENOMEM` and the adapter keeps its own.
    fn read(&mut self, data_width: BusWidth, buffer: Vec<u8>, len: usize) -> (r: Result<
        SpiTransfer,
        (ReturnCode, Vec<u8>),
    >)
        ensures
            r is Ok <==> old(self)@.accepts_read(data_width, buffer@.len(), len),
            r is Ok ==> {
                &&& final(self)@ == old(self)@.after_read(data_width)
                &&& r->Ok_0.write_buffer@ == old(self)@.read_write_buffer->0
                &&& r->Ok_0.read_buffer == Some(buffer)
                &&& r->Ok_0.len == len * data_width.spec_width_in_bytes()
            },
    {
        let bytes: usize = data_width.width_in_bytes();
        let write_buffer: Vec<u8> = self.read_write_buffer.take().unwrap();
        let covered = byte_count(len, bytes, write_buffer.len());
        let fits = byte_count(len, bytes, buffer.len());
        match (covered, fits) {
            (Some(count), Some(_)) => {
                if write_buffer.len() > 0 {
                    self.bus_width = data_width;
                    self.status = BusStatus::Read;
                    Ok(SpiTransfer { write_buffer, read_buffer: Some(buffer), len: count })
                } else {
                    self.read_write_buffer = Some(write_buffer);
                    Err((ReturnCode::ENOMEM, buffer))
                }
            },
            _ => {
                self.read_write_buffer = Some(write_buffer);
                Err((ReturnCode::ENOMEM, buffer))
            },
        }
    }

    fn set_client(&mut self, client: usize)
        ensures
            final(self)@ == (SpiMasterBusView { client: Some(client), ..old(self)@ }),
    {
        self.client = Some(client);
    }
}

/*********** I2C ************/

/// The bus protocol over an I2C device.
pub struct I2CMasterBus {
    len: usize,
    client: Option<usize>,
    addr_buffer: Option<Vec<u8>>,
    status: BusStatus,
}

/// The I2C adapter as a mathematical value.
pub struct I2CMasterBusView {
    /// Items of the transfer last started.
    pub len: usize,
    pub client: Option<usize>,
    /// The one-byte buffer for the address, while the adapter holds it.
    pub addr_buffer: Option<Seq<u8>>,
    pub status: BusStatus,
}

/// A request to the I2C adapter.
pub enum I2CBusRequest {
    SetAddr { addr_width: BusWidth, addr: usize },
    Write { data_width: BusWidth, buffer: Seq<u8>, len: usize },
    Read { data_width: BusWidth, buffer: Seq<u8>, len: usize },
}

impl I2CMasterBusView {
    /// `set_addr` is accepted: the width is eight bits and the adapter holds
    /// an address buffer with room for the byte.
    pub open spec fn accepts_set_addr(self, addr_width: BusWidth) -> bool {
        addr_width is Bits8 && self.addr_buffer is Some && self.addr_buffer->0.len() > 0
    }

    /// The code that `set_addr` answers with.
    pub open spec fn set_addr_code(self, addr_width: BusWidth) -> ReturnCode {
        if !(addr_width is Bits8) {
            ReturnCode::ENOSUPPORT
        } else if self.accepts_set_addr(addr_width) {
            ReturnCode::SUCCESS
        } else {
            ReturnCode::ENOMEM
        }
    }

    /// `write` is accepted: the buffer holds the bytes and their count fits
    /// the transport's eight-bit length.
    pub open spec fn accepts_write(data_width: BusWidth, capacity: nat, len: usize) -> bool {
        len * data_width.spec_width_in_bytes() < 255 && len * data_width.spec_width_in_bytes()
            <= capacity
    }

    /// `read` is accepted: the buffer has room for the bytes and their count
    /// fits the transport's eight-bit length.
    pub open spec fn accepts_read(data_width: BusWidth, capacity: nat, len: usize) -> bool {
        len * data_width.spec_width_in_bytes() < 255 && len * data_width.spec_width_in_bytes()
            <= capacity
    }

    /// Whether a request is accepted in this state.
    pub open spec fn accepts(self, request: I2CBusRequest) -> bool {
        match request {
            I2CBusRequest::SetAddr { addr_width, .. } => self.accepts_set_addr(addr_width),
            I2CBusRequest::Write { data_width, buffer, len } => Self::accepts_write(
                data_width,
                buffer.len(),
                len,
            ),
            I2CBusRequest::Read { data_width, buffer, len } => Self::accepts_read(
                data_width,
                buffer.len(),
                len,
            ),
        }
    }

    /// The adapter after an accepted request.
    pub open spec fn after_request(self, request: I2CBusRequest) -> I2CMasterBusView {
        match request {
            I2CBusRequest::SetAddr { .. } => I2CMasterBusView {
                addr_buffer: None,
                status: BusStatus::SetAddress,
                ..self
            },
            I2CBusRequest::Write { len, .. } => I2CMasterBusView {
                len,
                status: BusStatus::Write,
                ..self
            },
            I2CBusRequest::Read { len, .. } => I2CMasterBusView {
                len,
                status: BusStatus::Read,
                ..self
            },
        }
    }

    /// The number of bytes that the device is asked to transfer for a
    /// request: one for the address, the items times their width for data.
    pub open spec fn transfer_len(request: I2CBusRequest) -> int {
        match request {
            I2CBusRequest::SetAddr { .. } => 1,
            I2CBusRequest::Write { data_width, len, .. } => len * data_width.spec_width_in_bytes(),
            I2CBusRequest::Read { data_width, len, .. } => len * data_width.spec_width_in_bytes(),
        }
    }

    /// The buffer that travels to the device with an accepted request.
    pub open spec fn request_buffer(self, request: I2CBusRequest) -> Seq<u8> {
        match request {
            I2CBusRequest::SetAddr { addr, .. } => self.addr_buffer->0.update(
                0,
                address_byte(addr),
            ),
            I2CBusRequest::Write { buffer, .. } => buffer,
            I2CBusRequest::Read { buffer, .. } => buffer,
        }
    }

    /// The completion reported when the device is done and hands `buffer`
    /// back: no buffer and no items after `set_addr`; otherwise the buffer
    /// and the items asked for, or no items if the device reports a failure.
    pub open spec fn completion(self, buffer: Seq<u8>, error: Error) -> CompletionView {
        if self.status is SetAddress {
            CompletionView { client: self.client, buffer: None, len: 0 }
        } else {
            CompletionView {
                client: self.client,
                buffer: Some(buffer),
                len: if error is CommandComplete {
                    self.len
                } else {
                    0
                },
            }
        }
    }

    /// The adapter after the device is done: idle again, with the address
    /// buffer back in its slot after `set_addr`.
    pub open spec fn after_completion(self, buffer: Seq<u8>) -> I2CMasterBusView {
        if self.status is SetAddress {
            I2CMasterBusView { addr_buffer: Some(buffer), status: BusStatus::Idle, ..self }
        } else {
            I2CMasterBusView { status: BusStatus::Idle, ..self }
        }
    }
}

/// A complete transaction on the I2C adapter: set the address, write, read,
/// each request made after the completion of the one before, each completing
/// without error and with the buffer that travelled.
///
/// The adapter passes through Idle, SetAddress, Idle, Write, Idle, Read,
/// Idle. The first completion carries no buffer and no items; the second and
/// third carry the buffer of their request and the number of items asked for.
/// The device is asked for one byte, then for the items written times their
/// width, then for the items read times their width, none of them cut short.
pub proof fn lemma_i2c_transaction(
    s0: I2CMasterBusView,
    addr: usize,
    wwidth: BusWidth,
    wbuf: Seq<u8>,
    wlen: usize,
    rwidth: BusWidth,
    rbuf: Seq<u8>,
    rlen: usize,
)
    requires
        s0.status is Idle,
        s0.addr_buffer is Some,
        s0.addr_buffer->0.len() > 0,
        I2CMasterBusView::accepts_write(wwidth, wbuf.len(), wlen),
        I2CMasterBusView::accepts_read(rwidth, rbuf.len(), rlen),
    ensures
        ({
            let set = I2CBusRequest::SetAddr { addr_width: BusWidth::Bits8, addr };
            let write = I2CBusRequest::Write { data_width: wwidth, buffer: wbuf, len: wlen };
            let read = I2CBusRequest::Read { data_width: rwidth, buffer: rbuf, len: rlen };
            let ok = Error::CommandComplete;
            let s1 = s0.after_request(set);
            let b1 = s0.request_buffer(set);
            let s2 = s1.after_completion(b1);
            let s3 = s2.after_request(write);
            let s4 = s3.after_completion(wbuf);
            let s5 = s4.after_request(read);
            let s6 = s5.after_completion(rbuf);
            &&& s0.accepts(set) && s2.accepts(write) && s4.accepts(read)
            &&& s1.status is SetAddress
            &&& s2.status is Idle
            &&& s3.status is Write
            &&& s4.status is Idle
            &&& s5.status is Read
            &&& s6.status is Idle
            &&& b1[0] == address_byte(addr)
            &&& s1.completion(b1, ok) == (CompletionView {
                client: s0.client,
                buffer: None,
                len: 0,
            })
            &&& s3.completion(wbuf, ok) == (CompletionView {
                client: s0.client,
                buffer: Some(wbuf),
                len: wlen,
            })
            &&& s5.completion(rbuf, ok) == (CompletionView {
                client: s0.client,
                buffer: Some(rbuf),
                len: rlen,
            })
            &&& s6.addr_buffer == Some(b1)
            &&& I2CMasterBusView::transfer_len(set) == 1
            &&& I2CMasterBusView::transfer_len(write) == wlen * wwidth.spec_width_in_bytes() < 255
            &&& I2CMasterBusView::transfer_len(read) == rlen * rwidth.spec_width_in_bytes() < 255
        }),
{
}

impl View for I2CMasterBus {
    type V = I2CMasterBusView;

    closed spec fn view(&self) -> I2CMasterBusView {
        I2CMasterBusView {
            len: self.len,
            client: self.client,
            addr_buffer: bytes_of(self.addr_buffer),
            status: self.status,
        }
    }
}

impl I2CMasterBus {
    /// An idle adapter that owns `addr_buffer` for addresses.
    pub fn new(addr_buffer: Vec<u8>) -> (bus: I2CMasterBus)
        ensures
            bus@ == (I2CMasterBusView {
                len: 0,
                client: None,
                addr_buffer: Some(addr_buffer@),
                status: BusStatus::Idle,
            }),
    {
        I2CMasterBus {
            len: 0,
            client: None,
            addr_buffer: Some(addr_buffer),
            status: BusStatus::Idle,
        }
    }

    /// The step outstanding on the device.
    pub fn status(&self) -> (s: BusStatus)
        ensures
            s == self@.status,
    {
        self.status
    }

    /// The device is done and hands `buffer` back.
    ///
    /// After `set_addr` the address buffer returns to the adapter and the
    /// client is told so without a buffer. After a write or a read the
    /// buffer goes back to the client, with the number of items asked for,
    /// or zero if the device reports anything but completion. The adapter is
    /// idle afterwards.
    pub fn command_complete(&mut self, buffer: Vec<u8>, error: Error) -> (done: Completion)
        requires
            !(old(self)@.status is Idle),
        ensures
            done@ == old(self)@.completion(buffer@, error),
            final(self)@ == old(self)@.after_completion(buffer@),
            final(self)@.status is Idle,
            old(self)@.status is SetAddress ==> done.buffer is None,
            !(old(self)@.status is SetAddress) ==> done.buffer == Some(buffer),
    {
        let len: usize = match error {
            Error::CommandComplete => self.len,
            _ => 0,
        };
        let status = self.status;
        self.status = BusStatus::Idle;
        match status {
            BusStatus::SetAddress => {
                self.addr_buffer = Some(buffer);
                Completion { client: self.client, buffer: None, len: 0 }
            },
            _ => Completion { client: self.client, buffer: Some(buffer), len },
        }
    }
}

impl Bus for I2CMasterBus {
    type Transfer = I2cTransfer;

    open spec fn spec_idle(&self) -> bool {
        self@.status is Idle
    }

    open spec fn spec_read_ready(&self) -> bool {
        true
    }

    /// Sends the low byte of `addr` to the device from the address buffer.
    ///
    /// A width other than eight bits is refused with `ENOSUPPORT`; a missing
    /// or empty address buffer with `ENOMEM`.
    fn set_addr(&mut self, addr_width: BusWidth, addr: usize) -> (r: (
        ReturnCode,
        Option<I2cTransfer>,
    ))
        ensures
            r.0 == old(self)@.set_addr_code(addr_width),
            r.0 is SUCCESS ==> {
                let request = I2CBusRequest::SetAddr { addr_width, addr };
                &&& final(self)@ == old(self)@.after_request(request)
                &&& r.1->0 is Write
                &&& r.1->0->Write_buffer@ == old(self)@.request_buffer(request)
                &&& r.1->0->Write_len == I2CMasterBusView::transfer_len(request)
            },
    {
        match addr_width {
            BusWidth::Bits8 => {
                match self.addr_buffer.take() {
                    None => (ReturnCode::ENOMEM, None),
                    Some(mut buffer) => {
                        if buffer.len() == 0 {
                            self.addr_buffer = Some(buffer);
                            (ReturnCode::ENOMEM, None)
                        } else {
                            buffer[0] = (addr % 256) as u8;
                            self.status = BusStatus::SetAddress;
                            (ReturnCode::SUCCESS, Some(I2cTransfer::Write { buffer, len: 1 }))
                        }
                    },
                }
            },
            _ => (ReturnCode::ENOSUPPORT, None),
        }
    }

    /// Sends the first `len` items of `buffer` to the device as they are.
    ///
    /// Accepted exactly when the buffer holds that many bytes and they are
    /// fewer than 255; otherwise the buffer comes back with `ENOMEM`.
    fn write(&mut self, data_width: BusWidth, buffer: Vec<u8>, len: usize) -> (r: Result<
        I2cTransfer,
        (ReturnCode, Vec<u8>),
    >)
        ensures
            r is Ok <==> I2CMasterBusView::accepts_write(data_width, buffer@.len(), len),
            r is Ok ==> {
                &&& final(self)@ == old(self)@.after_request(
                    I2CBusRequest::Write { data_width, buffer: buffer@, len },
                )
                &&& r->Ok_0 is Write
                &&& r->Ok_0->Write_buffer == buffer
                &&& r->Ok_0->Write_len == I2CMasterBusView::transfer_len(
                    I2CBusRequest::Write { data_width, buffer: buffer@, len },
                )
            },
    {
        let bytes: usize = data_width.width_in_bytes();
        match byte_count(len, bytes, buffer.len()) {
            Some(count) => {
                if count < 255 {
                    self.len = len;
                    self.status = BusStatus::Write;
                    Ok(I2cTransfer::Write { buffer, len: count as u8 })
                } else {
                    Err((ReturnCode::ENOMEM, buffer))
                }
            },
            None => Err((ReturnCode::ENOMEM, buffer)),
        }
    }

    /// Reads `len` items from the device into `buffer`.
    ///
    /// Accepted exactly when the buffer has room for that many bytes and
    /// they are fewer than 255; otherwise the buffer comes back with
    /// `ENOMEM`.
    fn read(&mut self, data_width: BusWidth, buffer: Vec<u8>, len: usize) -> (r: Result<
        I2cTransfer,
        (ReturnCode, Vec<u8>),
    >)
        ensures
            r is Ok <==> I2CMasterBusView::accepts_read(data_width, buffer@.len(), len),
            r is Ok ==> {
                &&& final(self)@ == old(self)@.after_request(
                    I2CBusRequest::Read { data_width, buffer: buffer@, len },
                )
                &&& r->Ok_0 is Read
                &&& r->Ok_0->Read_buffer == buffer
                &&& r->Ok_0->Read_len == I2CMasterBusView::transfer_len(
                    I2CBusRequest::Read { data_width, buffer: buffer@, len },
                )
            },
    {
        let bytes: usize = data_width.width_in_bytes();
        match byte_count(len, bytes, buffer.len()) {
            Some(count) => {
                if count < 255 {
                    self.len = len;
                    self.status = BusStatus::Read;
                    Ok(I2cTransfer::Read { buffer, len: count as u8 })
                } else {
                    Err((ReturnCode::ENOMEM, buffer))
                }
            },
            None => Err((ReturnCode::ENOMEM, buffer)),
        }
    }

    fn set_client(&mut self, client: usize)
        ensures
            final(self)@ == (I2CMasterBusView { client: Some(client), ..old(self)@ }),
    {
        self.client = Some(client);
    }
}

} // verus!
