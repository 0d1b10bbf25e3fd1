//! Component for the LS016B8UY screen.

use vstd::prelude::*;
use crate::capsules::ls016b8uy::{SendCommand, LS016B8UY, BUFFER_SIZE, SEQUENCE_BUFFER_SIZE};

verus! {

/// Makes the driver of an LS016B8UY panel.
pub struct LS016B8UYComponent {}

impl LS016B8UYComponent {
    pub fn new() -> (component: LS016B8UYComponent) {
        LS016B8UYComponent {  }
    }

    /// An idle driver, powered off, with a zeroed transfer buffer and an
    /// empty sequence buffer of the usual sizes.
    pub fn finalize(self) -> (driver: LS016B8UY)
        ensures
            driver@.wf(),
            driver@.status is Idle,
            !driver@.power_on,
            driver@.buffer == Some(Seq::new(BUFFER_SIZE as nat, |i: int| 0u8)),
            driver@.buffer_len == BUFFER_SIZE,
            driver@.sequence_buffer == Seq::new(
                SEQUENCE_BUFFER_SIZE as nat,
                |i: int| SendCommand::Nop,
            ),
            driver@.sequence_len == 0,
            driver@.client is None && driver@.setup_client is None && driver@.callback is None,
    {
        let buffer: Vec<u8> = vec![0u8; BUFFER_SIZE];
        let mut sequence_buffer: Vec<SendCommand> = Vec::new();
        let mut i: usize = 0;
        while i < SEQUENCE_BUFFER_SIZE
            invariant
                i <= SEQUENCE_BUFFER_SIZE,
                sequence_buffer@ == Seq::new(i as nat, |j: int| SendCommand::Nop),
            decreases SEQUENCE_BUFFER_SIZE - i,
        {
            sequence_buffer.push(SendCommand::Nop);
            i += 1;
            assert(sequence_buffer@ =~= Seq::new(i as nat, |j: int| SendCommand::Nop));
        }
        proof {
            assert(buffer@ =~= Seq::new(BUFFER_SIZE as nat, |i: int| 0u8));
        }
        LS016B8UY::new(buffer, sequence_buffer)
    }
}

} // verus!
