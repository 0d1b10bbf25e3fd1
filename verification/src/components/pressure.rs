//! Component for the pressure driver.

use vstd::prelude::*;
use crate::capsules::pressure::{App, PressureSensor, PressureSensorView};

verus! {

/// Makes the driver that gives applications access to a pressure sensor.
pub struct PressureComponent {}

impl PressureComponent {
    pub fn new() -> (component: PressureComponent) {
        PressureComponent {  }
    }

    /// A free driver that serves the applications in `grant`.
    pub fn finalize(self, grant: Vec<App>) -> (driver: PressureSensor)
        ensures
            driver@ == (PressureSensorView { apps: grant@, busy: false }),
    {
        PressureSensor::new(grant)
    }
}

} // verus!
