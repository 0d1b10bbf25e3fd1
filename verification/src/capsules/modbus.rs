//! The frame of a Modbus server over some transport.

use vstd::prelude::*;

verus! {

/// Why a packet was not sent. No particular reasons are told apart yet.
#[derive(Clone, Copy, Debug, PartialEq, Eq, Structural)]
pub enum ModBusError {
    Failed,
}

/// The party that a transport reports to.
pub trait ModBusTransportClient {
    fn packet_received(&mut self, buffer: &[u8], len: usize);

    fn packet_sent(&mut self, buffer: &[u8], error: ModBusError);
}

/// Something that carries Modbus packets.
pub trait ModBusTransport {
    fn send_packet(&mut self, buffer: &[u8], len: usize);

    /// Registers the client that packets are reported to.
    fn set_client(&mut self, client: usize);
}

/// A Modbus server on top of a transport.
pub struct ModBusServer<T: ModBusTransport> {
    pub transport: T,
}

impl<T: ModBusTransport> ModBusServer<T> {
    /// A server that sends and receives through `transport`.
    pub fn new(transport: T) -> (server: ModBusServer<T>)
        ensures
            server.transport == transport,
    {
        ModBusServer { transport }
    }
}

} // verus!
