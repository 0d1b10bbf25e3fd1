//! Component for the FT6x06 touch panel.

use vstd::prelude::*;
use crate::capsules::ft6x06::{Ft6x06, Interrupts, BUFFER_SIZE};
use crate::hil::touch::{TouchEvent, TouchPoint};

verus! {

/// A touch that stands for none: a release at the origin.
pub open spec fn no_touch() -> TouchPoint {
    TouchPoint { id: 0, x: 0, y: 0, status: TouchEvent::Released, size: None, pressure: None }
}

/// Makes the driver of an FT6x06.
pub struct Ft6x06Component {}

impl Ft6x06Component {
    pub fn new() -> (component: Ft6x06Component) {
        Ft6x06Component {  }
    }

    /// An idle driver with a zeroed buffer and room for two touches, and
    /// what to do with the interrupt line: listen for the falling edge.
    pub fn finalize(self) -> (r: (Ft6x06, Interrupts))
        ensures
            r.0@.wf(),
            r.0@.state is Idle,
            r.0@.buffer == Some(Seq::new(BUFFER_SIZE as nat, |i: int| 0u8)),
            r.0@.events == seq![no_touch(), no_touch()],
            r.0@.touch_client is None && r.0@.gesture_client is None
                && r.0@.multi_touch_client is None,
            r.1 is EnableFallingEdge,
    {
        let none = TouchPoint {
            id: 0,
            x: 0,
            y: 0,
            status: TouchEvent::Released,
            size: None,
            pressure: None,
        };
        let mut events: Vec<TouchPoint> = Vec::new();
        events.push(none);
        events.push(none);
        let buffer: Vec<u8> = vec![0u8; BUFFER_SIZE];
        proof {
            assert(events@ =~= seq![no_touch(), no_touch()]);
            assert(buffer@ =~= Seq::new(BUFFER_SIZE as nat, |i: int| 0u8));
        }
        Ft6x06::new(buffer, events)
    }
}

} // verus!
