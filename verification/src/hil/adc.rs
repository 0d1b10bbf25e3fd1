//! What an analog-to-digital converter is asked to do.

use vstd::prelude::*;

verus! {

/// One request to the converter.
#[derive(Clone, Copy, Debug, PartialEq, Eq, Structural)]
pub enum AdcRequest {
    /// Take a single sample on `channel`.
    Sample { channel: usize },
}

/// A sample on its way to the client that asked for it.
#[derive(Clone, Copy, Debug, PartialEq, Eq, Structural)]
pub struct SampleReady {
    pub client: usize,
    pub sample: u16,
}

} // verus!
