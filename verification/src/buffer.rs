//! Byte buffers that move between a driver and the hardware.

use vstd::prelude::*;

verus! {

/// The bytes of a buffer that may be away: `None` while it is.
pub open spec fn bytes_of(buffer: Option<Vec<u8>>) -> Option<Seq<u8>> {
    match buffer {
        Some(b) => Some(b@),
        None => None,
    }
}

} // verus!
