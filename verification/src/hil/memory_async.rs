//! Asynchronous access to a memory-like device: write or read at an
//! address, completion reported later.

use vstd::prelude::*;
use crate::returncode::ReturnCode;

verus! {

/// How a memory operation ended.
#[derive(Clone, Copy, Debug, PartialEq, Eq, Structural)]
pub enum Error {
    Complete,
    Error,
}

/// Width of an address or of one data item.
#[derive(Clone, Copy, Debug, PartialEq, Eq, Structural)]
pub enum BusWidth {
    Bits8,
    Bits16,
    Bits32,
    Bits64,
}

/// One request to a memory-like device. The buffer moves to the device and
/// comes back with the completion.
#[derive(Debug, PartialEq, Eq)]
pub enum MemoryRequest {
    /// Write `len` items from `buffer` at the eight-bit address `addr`.
    WriteAddr { addr: usize, buffer: Vec<u8>, len: usize },
    /// Write `len` items of `data_width` from `buffer`.
    Write { data_width: BusWidth, buffer: Vec<u8>, len: usize },
}

/// A request as a mathematical value.
pub enum MemoryRequestView {
    WriteAddr { addr: usize, buffer: Seq<u8>, len: usize },
    Write { data_width: BusWidth, buffer: Seq<u8>, len: usize },
}

impl View for MemoryRequest {
    type V = MemoryRequestView;

    open spec fn view(&self) -> MemoryRequestView {
        match self {
            MemoryRequest::WriteAddr { addr, buffer, len } => MemoryRequestView::WriteAddr {
                addr: *addr,
                buffer: buffer@,
                len: *len,
            },
            MemoryRequest::Write { data_width, buffer, len } => MemoryRequestView::Write {
                data_width: *data_width,
                buffer: buffer@,
                len: *len,
            },
        }
    }
}

/// What a memory-like device reports to its client when a write or a read
/// is over: the buffer that carried the data, and the number of items.
#[derive(Debug, PartialEq, Eq)]
pub struct MemoryCompletion {
    /// The client registered with the device, if any.
    pub client: Option<usize>,
    pub buffer: Vec<u8>,
    pub len: usize,
}

/// A memory-like device. Only eight-bit addresses and data are implemented
/// by the transports so far; other widths are refused with `ENOSUPPORT`.
/// A refused request hands the caller's buffer back as it was and leaves the
/// device as it was.
pub trait Memory: Sized {
    /// The transfer handed to the transport.
    type Transfer;

    /// Writes `len` items from `buffer` to `addr`.
    fn write_addr(
        &mut self,
        addr_width: BusWidth,
        addr: usize,
        data_width: BusWidth,
        buffer: Vec<u8>,
        len: usize,
    ) -> (r: Result<Self::Transfer, (ReturnCode, Vec<u8>)>)
        ensures
            !(addr_width is Bits8) ==> r is Err && r->Err_0.0 is ENOSUPPORT,
            r is Err ==> r->Err_0.1 == buffer && *final(self) == *old(self),
    ;

    /// Reads `len` items from `addr` into `buffer`.
    fn read_addr(
        &mut self,
        addr_width: BusWidth,
        addr: usize,
        data_width: BusWidth,
        buffer: Vec<u8>,
        len: usize,
    ) -> (r: Result<Self::Transfer, (ReturnCode, Vec<u8>)>)
        ensures
            !(addr_width is Bits8) ==> r is Err && r->Err_0.0 is ENOSUPPORT,
            r is Err ==> r->Err_0.1 == buffer && *final(self) == *old(self),
    ;

    /// Writes `len` items from `buffer`.
    fn write(&mut self, data_width: BusWidth, buffer: Vec<u8>, len: usize) -> (r: Result<
        Self::Transfer,
        (ReturnCode, Vec<u8>),
    >)
        ensures
            !(data_width is Bits8) ==> r is Err && r->Err_0.0 is ENOSUPPORT,
            r is Err ==> r->Err_0.1 == buffer && *final(self) == *old(self),
    ;

    /// Reads `len` items into `buffer`.
    fn read(&mut self, data_width: BusWidth, buffer: Vec<u8>, len: usize) -> (r: Result<
        Self::Transfer,
        (ReturnCode, Vec<u8>),
    >)
        ensures
            !(data_width is Bits8) ==> r is Err && r->Err_0.0 is ENOSUPPORT,
            r is Err ==> r->Err_0.1 == buffer && *final(self) == *old(self),
    ;

    /// Registers the client that completions are addressed to.
    fn set_client(&mut self, client: usize);
}

/// The party that a memory device reports completions to.
pub trait Client {
    /// What the client asks for next.
    type Response;

    /// Called when a write or a read is complete; `buffer` is the one that
    /// carried the data.
    fn command_complete(&mut self, buffer: Vec<u8>, len: usize) -> Self::Response;
}

} // verus!
