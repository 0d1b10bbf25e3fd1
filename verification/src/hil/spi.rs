//! What an SPI device behind one chip select is asked to do.

use vstd::prelude::*;

verus! {

/// Level of the clock line while idle.
#[derive(Clone, Copy, Debug, PartialEq, Eq, Structural)]
pub enum ClockPolarity {
    IdleLow,
    IdleHigh,
}

/// Clock edge on which data is sampled.
#[derive(Clone, Copy, Debug, PartialEq, Eq, Structural)]
pub enum ClockPhase {
    SampleLeading,
    SampleTrailing,
}

/// Clock settings of an SPI device.
#[derive(Clone, Copy, Debug, PartialEq, Eq, Structural)]
pub struct SpiConfiguration {
    pub cpol: ClockPolarity,
    pub cpal: ClockPhase,
    pub rate: u32,
}

/// One full-duplex transfer of `len` bytes. Both buffers move to the device
/// and come back with the completion.
#[derive(Debug, PartialEq, Eq)]
pub struct SpiTransfer {
    pub write_buffer: Vec<u8>,
    pub read_buffer: Option<Vec<u8>>,
    pub len: usize,
}

} // verus!
