//! Component for the ST7789H2 screen.

use vstd::prelude::*;
use crate::capsules::st7789h2::{SendCommand, ST7789H2, BUFFER_SIZE, SEQUENCE_BUFFER_SIZE};

verus! {

/// Makes the driver of an ST7789H2 panel.
pub struct ST7789H2Component {}

impl ST7789H2Component {
    pub fn new() -> (component: ST7789H2Component) {
        ST7789H2Component {  }
    }

    /// An idle driver, powered off, with a zeroed transfer buffer and an
    /// empty sequence buffer of the usual sizes.
    pub fn finalize(self) -> (driver: ST7789H2)
        ensures
            driver@.wf(),
            driver@.status is Idle,
            !driver@.power_on,
            driver@.buffer == Some(Seq::new(BUFFER_SIZE as nat, |i: int| 0u8)),
            driver@.buffer_len == BUFFER_SIZE,
            driver@.sequence_buffer == Seq::new(
                SEQUENCE_BUFFER_SIZE as nat,
                |i: int| SendCommand::Nop,
            ),
            driver@.sequence_len == 0,
            driver@.client is None && driver@.setup_client is None && driver@.callback is None,
    {
        let buffer: Vec<u8> = vec![0u8; BUFFER_SIZE];
        let mut sequence_buffer: Vec<SendCommand> = Vec::new();
        let mut i: usize = 0;
        while i < SEQUENCE_BUFFER_SIZE
            invariant
                i <= SEQUENCE_BUFFER_SIZE,
                sequence_buffer@ == Seq::new(i as nat, |j: int| SendCommand::Nop),
            decreases SEQUENCE_BUFFER_SIZE - i,
        {
            sequence_buffer.push(SendCommand::Nop);
            i += 1;
            assert(sequence_buffer@ =~= Seq::new(i as nat, |j: int| SendCommand::Nop));
        }
        proof {
            assert(buffer@ =~= Seq::new(BUFFER_SIZE as nat, |i: int| 0u8));
        }
        ST7789H2::new(buffer, sequence_buffer)
    }
}

} // verus!
