//! The state of the temperature sensor that is read through the converter.

use vstd::prelude::*;
use crate::returncode::ReturnCode;

verus! {

/// Whether a reading is being taken.
#[derive(Clone, Copy, Debug, PartialEq, Eq, Structural)]
pub enum Status {
    Read,
    Idle,
}

impl Status {
    /// Asks for a reading: accepted when idle, which makes the sensor busy;
    /// refused with `EBUSY` otherwise.
    pub fn read_temperature(&mut self) -> (r: ReturnCode)
        ensures
            r == if *old(self) is Idle {
                ReturnCode::SUCCESS
            } else {
                ReturnCode::EBUSY
            },
            *final(self) == Status::Read,
    {
        match *self {
            Status::Idle => {
                *self = Status::Read;
                ReturnCode::SUCCESS
            },
            Status::Read => ReturnCode::EBUSY,
        }
    }

    /// The sample arrived: the sensor is idle again.
    pub fn sample_ready(&mut self)
        ensures
            *final(self) == Status::Idle,
    {
        *self = Status::Idle;
    }
}

} // verus!
