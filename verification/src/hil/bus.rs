//! One request/response protocol over several addressed transports.

use vstd::prelude::*;
use crate::returncode::ReturnCode;

verus! {

/// Width of an address or of one data item on the bus.
///
/// The width only scales the byte count of a transfer; payload bytes travel
/// in buffer order, whatever the endianness named here.
#[derive(Clone, Copy, Debug, PartialEq, Eq, Structural)]
pub enum BusWidth {
    Bits8,
    Bits16LE,
    Bits16BE,
    Bits32LE,
    Bits32BE,
    Bits64LE,
    Bits64BE,
}

impl BusWidth {
    /// Bytes that one item of this width takes in a transfer.
    pub open spec fn spec_width_in_bytes(&self) -> usize {
        match self {
            BusWidth::Bits8 => 1,
            BusWidth::Bits16BE | BusWidth::Bits16LE => 2,
            BusWidth::Bits32BE | BusWidth::Bits32LE => 4,
            BusWidth::Bits64BE | BusWidth::Bits64LE => 8,
        }
    }

    /// Bytes that one item of this width takes in a transfer.
    #[verifier::when_used_as_spec(spec_width_in_bytes)]
    pub fn width_in_bytes(&self) -> (bytes: usize)
        ensures
            bytes == self.spec_width_in_bytes(),
            1 <= bytes <= 8,
    {
        match self {
            BusWidth::Bits8 => 1,
            BusWidth::Bits16BE | BusWidth::Bits16LE => 2,
            BusWidth::Bits32BE | BusWidth::Bits32LE => 4,
            BusWidth::Bits64BE | BusWidth::Bits64LE => 8,
        }
    }
}

/// What a bus reports to its client when a step of a transaction is over.
///
/// Setting the address hands no buffer back; a write or a read hands back the
/// buffer that carried the data. `len` counts data items, and is zero when
/// the transport reported a failure.
#[derive(Debug, PartialEq, Eq)]
pub struct Completion {
    /// The client registered with the bus, if any.
    pub client: Option<usize>,
    pub buffer: Option<Vec<u8>>,
    pub len: usize,
}

/// What a client asks of a bus.
#[derive(Debug, PartialEq, Eq)]
pub enum Request {
    SetAddr { addr_width: BusWidth, addr: usize },
    Write { data_width: BusWidth, buffer: Vec<u8>, len: usize },
    Read { data_width: BusWidth, buffer: Vec<u8>, len: usize },
}

/// A completion as a mathematical value.
pub struct CompletionView {
    pub client: Option<usize>,
    pub buffer: Option<Seq<u8>>,
    pub len: usize,
}

impl View for Completion {
    type V = CompletionView;

    open spec fn view(&self) -> CompletionView {
        CompletionView {
            client: self.client,
            buffer: match self.buffer {
                Some(b) => Some(b@),
                None => None,
            },
            len: self.len,
        }
    }
}

/// The byte count of `len` items of `bytes` bytes each, if it does not exceed
/// `capacity`.
pub fn byte_count(len: usize, bytes: usize, capacity: usize) -> (r: Option<usize>)
    requires
        1 <= bytes <= 8,
    ensures
        len * bytes <= capacity ==> r == Some((len * bytes) as usize),
        len * bytes > capacity ==> r is None,
{
    if len > capacity / bytes {
        assert(len * bytes > capacity) by (nonlinear_arith)
            requires
                len > capacity / bytes,
                bytes >= 1,
        ;
        None
    } else {
        assert(len * bytes <= capacity) by (nonlinear_arith)
            requires
                len <= capacity / bytes,
                bytes >= 1,
        ;
        Some(len * bytes)
    }
}

/// An addressed bus: set an address, then write or read data items.
///
/// Each accepted request yields the transfer that the transport has to carry
/// out. A refused write or read hands the caller's buffer back with the code.
pub trait Bus: Sized {
    /// The transfer handed to the transport.
    type Transfer;

    /// No step of a transaction is outstanding.
    spec fn spec_idle(&self) -> bool;

    /// The bus holds what it needs to start a read.
    spec fn spec_read_ready(&self) -> bool;

    /// Sets the address that the next write or read goes to.
    ///
    /// Only eight-bit addresses are supported.
    fn set_addr(&mut self, addr_width: BusWidth, addr: usize) -> (r: (
        ReturnCode,
        Option<Self::Transfer>,
    ))
        requires
            old(self).spec_idle(),
        ensures
            !(addr_width is Bits8) ==> r.0 is ENOSUPPORT,
            r.0 is SUCCESS || r.0 is ENOMEM || r.0 is ENOSUPPORT,
            r.0 is SUCCESS <==> r.1 is Some,
            r.0 is SUCCESS ==> !final(self).spec_idle(),
            !(r.0 is SUCCESS) ==> *final(self) == *old(self),
    ;

    /// Writes `len` items of `data_width` from `buffer`.
    fn write(&mut self, data_width: BusWidth, buffer: Vec<u8>, len: usize) -> (r: Result<
        Self::Transfer,
        (ReturnCode, Vec<u8>),
    >)
        requires
            old(self).spec_idle(),
        ensures
            buffer@.len() < len * data_width.spec_width_in_bytes() ==> r is Err,
            r is Err ==> r->Err_0 == (ReturnCode::ENOMEM, buffer) && *final(self) == *old(self),
            r is Ok ==> !final(self).spec_idle(),
    ;

    /// Reads `len` items of `data_width` into `buffer`.
    fn read(&mut self, data_width: BusWidth, buffer: Vec<u8>, len: usize) -> (r: Result<
        Self::Transfer,
        (ReturnCode, Vec<u8>),
    >)
        requires
            old(self).spec_idle(),
            old(self).spec_read_ready(),
        ensures
            buffer@.len() < len * data_width.spec_width_in_bytes() ==> r is Err,
            r is Err ==> r->Err_0 == (ReturnCode::ENOMEM, buffer) && *final(self) == *old(self),
            r is Ok ==> !final(self).spec_idle(),
    ;

    /// Registers the client that completions are addressed to.
    fn set_client(&mut self, client: usize)
        ensures
            final(self).spec_idle() == old(self).spec_idle(),
            final(self).spec_read_ready() == old(self).spec_read_ready(),
    ;
}

/// The party that a bus reports completions to.
pub trait Client {
    /// What the client asks for next.
    type Response;

    /// Called when `set_addr`, `write` or `read` is complete.
    ///
    /// `buffer` is absent after `set_addr`; `len` is the number of data items
    /// transferred.
    fn command_complete(&mut self, buffer: Option<Vec<u8>>, len: usize) -> Self::Response;
}

} // verus!
