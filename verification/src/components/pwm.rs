//! Components for the PWM multiplexer, its users and the PWM driver.

use vstd::prelude::*;
use crate::capsules::pwm::{App, PwmVirtualized, PwmVirtualizedView};
use crate::capsules::virtual_pwm::{MuxPwm, PwmPinUser};

verus! {

/// Makes the multiplexer of a PWM controller.
pub struct PwmMuxComponent {}

impl PwmMuxComponent {
    pub fn new() -> (component: PwmMuxComponent) {
        PwmMuxComponent {  }
    }

    /// A multiplexer with no users.
    pub fn finalize(self) -> (mux: MuxPwm)
        ensures
            mux@.len() == 0,
    {
        MuxPwm::new()
    }
}

/// Makes a user of the PWM controller, bound to a pin.
pub struct PwmComponent {
    pub pin: usize,
}

impl PwmComponent {
    pub fn new(pin: usize) -> (component: PwmComponent)
        ensures
            component.pin == pin,
    {
        PwmComponent { pin }
    }

    /// Registers a user for the pin with `mux` and returns its index.
    pub fn finalize(self, mux: &mut MuxPwm) -> (index: usize)
        ensures
            index == old(mux)@.len(),
            final(mux)@ == old(mux)@.push(PwmPinUser { pin: self.pin, operation: None }),
    {
        PwmPinUser::new(self.pin).add_to_mux(mux)
    }
}

/// Makes the driver that gives applications access to a set of PWM pins.
pub struct PwmVirtualComponent {
    /// The number of pins.
    pub pins: usize,
}

impl PwmVirtualComponent {
    pub fn new(pins: usize) -> (component: PwmVirtualComponent)
        ensures
            component.pins == pins,
    {
        PwmVirtualComponent { pins }
    }

    /// A driver with the pins free that serves the applications in `grant`.
    pub fn finalize(self, grant: Vec<App>) -> (driver: PwmVirtualized)
        ensures
            driver@ == (PwmVirtualizedView {
                drivers: self.pins,
                apps: grant@,
                current_app: None,
            }),
    {
        PwmVirtualized::new(self.pins, grant)
    }
}

} // verus!
