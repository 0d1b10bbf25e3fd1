//! Component for the serial link to the ESP module.

use vstd::prelude::*;
use crate::capsules::esp_serial::{App, EspSerial, Link, UartTransfer, BUFFER_SIZE, LINKS};

verus! {

/// Makes the driver of the serial link.
pub struct ESPSerialComponent {}

impl ESPSerialComponent {
    pub fn new() -> (component: ESPSerialComponent) {
        ESPSerialComponent {  }
    }

    /// A driver for the applications in `grant`, with zeroed buffers of the
    /// usual size and five free links, and the reception that it starts
    /// with.
    pub fn finalize(self, grant: Vec<App>) -> (r: (EspSerial, UartTransfer))
        ensures
            r.0.wf(),
            r.0.apps == grant,
            r.0.links@ == Seq::new(LINKS as nat, |i: int| Link { link_id: i as usize, app: None }),
            r.0.tx_buffer is Some && r.0.tx_buffer->0@.len() == BUFFER_SIZE,
            r.0.rx_buffer is None,
            r.0.rx_buffer_helper@.len() == BUFFER_SIZE,
            r.0.helper_pos == 0,
            r.0.tx_in_progress is None && r.0.rx_in_progress is None,
            r.1.buffer@.len() == BUFFER_SIZE,
            r.1.len == 1,
    {
        let mut links: Vec<Link> = Vec::new();
        let mut id: usize = 0;
        while id < LINKS
            invariant
                id <= LINKS,
                links@ == Seq::new(id as nat, |i: int| Link { link_id: i as usize, app: None }),
            decreases LINKS - id,
        {
            links.push(Link::new(id));
            id += 1;
            assert(links@ =~= Seq::new(id as nat, |i: int| Link { link_id: i as usize, app: None }));
        }
        EspSerial::new(
            vec![0u8; BUFFER_SIZE],
            vec![0u8; BUFFER_SIZE],
            vec![0u8; BUFFER_SIZE],
            links,
            grant,
        )
    }
}

} // verus!
