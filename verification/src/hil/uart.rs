//! What a serial port reports with a buffer that it hands back.

use vstd::prelude::*;

verus! {

/// How a reception ended.
#[derive(Clone, Copy, Debug, PartialEq, Eq, Structural)]
pub enum Error {
    /// Nothing went wrong.
    NoError,
    /// A byte had the wrong parity.
    ParityError,
    /// A byte had no stop bit.
    FramingError,
    /// Bytes arrived faster than they were taken.
    OverrunError,
    /// A reception was started while one was under way.
    RepeatCallError,
    /// The port was reset.
    ResetError,
    /// The reception was aborted.
    Aborted,
}

} // verus!
