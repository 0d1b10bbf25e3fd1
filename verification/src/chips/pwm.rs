//! A pin that carries the signal of one channel of a timer.

use vstd::prelude::*;

verus! {

/// How the pin has to be set up to carry the signal.
#[derive(Clone, Copy, Debug, PartialEq, Eq, Structural)]
pub struct PinSetup {
    /// The pin is an output.
    pub output: bool,
    /// The number of the alternate function that the pin is switched to.
    pub alternate_function: u8,
    /// The pin runs at high speed.
    pub high_speed: bool,
}

/// A pin bound to one channel of timer 4.
#[derive(Clone, Copy, Debug, PartialEq, Eq, Structural)]
pub struct TimPwmPin {
    pub channel: u8,
}

impl TimPwmPin {
    /// The pin for `channel`, and how to set it up.
    pub fn new(channel: u8) -> (r: (TimPwmPin, PinSetup))
        ensures
            r.0.channel == channel,
            r.1 == (PinSetup { output: true, alternate_function: 2, high_speed: true }),
    {
        (TimPwmPin { channel }, PinSetup { output: true, alternate_function: 2, high_speed: true })
    }
}

} // verus!
