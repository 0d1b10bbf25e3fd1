//! Component for the touch driver.

use vstd::prelude::*;
use crate::capsules::touch::{App, Touch};

verus! {

/// Makes the driver that gives applications access to the touch panel.
pub struct TouchComponent {}

impl TouchComponent {
    pub fn new() -> (component: TouchComponent) {
        TouchComponent {  }
    }

    /// A driver that serves the applications in `grant`.
    pub fn finalize(self, grant: Vec<App>) -> (driver: Touch)
        ensures
            driver@ == grant@,
    {
        Touch::new(grant)
    }
}

} // verus!
