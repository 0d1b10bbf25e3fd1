//! Component for the memory behind an SPI chip select.

use vstd::prelude::*;
use crate::capsules::memory_async::{SpiMemory, SpiMemoryView};
use crate::hil::memory_async::Memory;

verus! {

/// Makes the memory device of an SPI chip select.
pub struct SpiMemoryComponent {}

impl SpiMemoryComponent {
    pub fn new() -> (component: SpiMemoryComponent) {
        SpiMemoryComponent {  }
    }

    /// A device that reports to `client` and holds no bytes to clock out
    /// yet.
    pub fn finalize(self, client: usize) -> (memory: SpiMemory)
        ensures
            memory@ == (SpiMemoryView { read_write_buffer: None, client: Some(client) }),
    {
        let mut memory = SpiMemory::new();
        memory.set_client(client);
        memory
    }
}

} // verus!
