//! Gives applications access to a set of PWM pins.
//!
//! One application at a time has a command with the pins; a second one can
//! leave a single command pending.

use vstd::prelude::*;
use crate::capsules::virtual_pwm::{request_for, spec_request_for, Operation, PinRequest};
use crate::process::{no_such_app, spec_no_such_app, Answer, AppId, Callback};
use crate::returncode::ReturnCode;

verus! {

/// What the driver keeps for one application.
#[derive(Clone, Copy, Debug, PartialEq, Eq, Structural)]
pub struct App {
    pub callback: Option<Callback>,
    pub pending_command: bool,
    pub command: Option<Operation>,
    pub channel: usize,
}

impl App {
    /// An application with nothing pending.
    pub fn new() -> (app: App)
        ensures
            app == (App { callback: None, pending_command: false, command: None, channel: 0 }),
    {
        App { callback: None, pending_command: false, command: None, channel: 0 }
    }
}

/// The driver as a mathematical value.
pub struct PwmVirtualizedView {
    /// The number of pins.
    pub drivers: usize,
    pub apps: Seq<App>,
    /// The application whose command is with the pins.
    pub current_app: Option<AppId>,
}

impl PwmVirtualizedView {
    /// What `enqueue_command` answers.
    pub open spec fn enqueue_command(self, command: Operation, channel: usize, appid: AppId) -> Answer<
        PinRequest,
    > {
        if channel >= self.drivers {
            Answer::Code(ReturnCode::ENODEVICE)
        } else if appid.idx >= self.apps.len() {
            Answer::Code(spec_no_such_app())
        } else if self.current_app is None {
            Answer::Device(spec_request_for(command, channel))
        } else if self.apps[appid.idx as int].pending_command {
            Answer::Code(ReturnCode::EBUSY)
        } else {
            Answer::Code(ReturnCode::SUCCESS)
        }
    }

    /// The driver after `enqueue_command`: with the pins free the
    /// application becomes the current one; else, if it has nothing
    /// pending, its command is kept pending. A refused command changes
    /// nothing.
    pub open spec fn after_enqueue(self, command: Operation, channel: usize, appid: AppId) -> PwmVirtualizedView {
        match self.enqueue_command(command, channel, appid) {
            Answer::Device(_) => PwmVirtualizedView { current_app: Some(appid), ..self },
            Answer::Code(ReturnCode::SUCCESS) => PwmVirtualizedView {
                apps: self.apps.update(
                    appid.idx as int,
                    App {
                        pending_command: true,
                        command: Some(command),
                        channel,
                        ..self.apps[appid.idx as int]
                    },
                ),
                ..self
            },
            _ => self,
        }
    }
}

/// The driver of a set of PWM pins.
pub struct PwmVirtualized {
    drivers: usize,
    apps: Vec<App>,
    current_app: Option<AppId>,
}

impl View for PwmVirtualized {
    type V = PwmVirtualizedView;

    closed spec fn view(&self) -> PwmVirtualizedView {
        PwmVirtualizedView {
            drivers: self.drivers,
            apps: self.apps@,
            current_app: self.current_app,
        }
    }
}

impl PwmVirtualized {
    /// A driver for `drivers` pins that serves the applications in `grant`.
    pub fn new(drivers: usize, grant: Vec<App>) -> (driver: PwmVirtualized)
        ensures
            driver@ == (PwmVirtualizedView { drivers, apps: grant@, current_app: None }),
    {
        PwmVirtualized { drivers, apps: grant, current_app: None }
    }

    /// The application whose command is with the pins.
    pub fn current_app(&self) -> (app: Option<AppId>)
        ensures
            app == self@.current_app,
    {
        self.current_app
    }

    /// What the driver keeps for `appid`, if the application exists.
    pub fn app(&self, appid: AppId) -> (app: Option<App>)
        ensures
            app == if appid.idx < self@.apps.len() {
                Some(self@.apps[appid.idx as int])
            } else {
                None
            },
    {
        if appid.idx < self.apps.len() {
            Some(self.apps[appid.idx])
        } else {
            None
        }
    }

    /// Takes a command for pin `channel` from `appid`.
    ///
    /// A pin that does not exist is refused with `ENODEVICE`. With the pins
    /// free the command goes to the pin at once, and the pin's answer,
    /// handed to `driver_answered`, is the answer to the request. With the
    /// pins taken the command is kept pending, or refused with `EBUSY` if
    /// the application has one pending already.
    pub fn enqueue_command(&mut self, command: Operation, channel: usize, appid: AppId) -> (r:
        Answer<PinRequest>)
        ensures
            r == old(self)@.enqueue_command(command, channel, appid),
            final(self)@ == old(self)@.after_enqueue(command, channel, appid),
    {
        if channel < self.drivers {
            if appid.idx >= self.apps.len() {
                return Answer::Code(no_such_app());
            }
            if self.current_app.is_none() {
                self.current_app = Some(appid);
                Answer::Device(self.call_driver(command, channel))
            } else {
                let app: App = self.apps[appid.idx];
                if app.pending_command {
                    Answer::Code(ReturnCode::EBUSY)
                } else {
                    self.apps[appid.idx] = App {
                        pending_command: true,
                        command: Some(command),
                        channel,
                        ..app
                    };
                    Answer::Code(ReturnCode::SUCCESS)
                }
            }
        } else {
            Answer::Code(ReturnCode::ENODEVICE)
        }
    }

    /// The pin answered a command that went to it at once: unless the
    /// answer is `SUCCESS` the pins are free again. The answer is passed
    /// on.
    pub fn driver_answered(&mut self, value: ReturnCode) -> (r: ReturnCode)
        ensures
            r == value,
            final(self)@ == if value is SUCCESS {
                old(self)@
            } else {
                PwmVirtualizedView { current_app: None, ..old(self)@ }
            },
    {
        match value {
            ReturnCode::SUCCESS => {},
            _ => {
                self.current_app = None;
            },
        }
        value
    }

    /// The request that carries `command` out on pin `channel`.
    pub fn call_driver(&self, command: Operation, channel: usize) -> (request: PinRequest)
        ensures
            request == spec_request_for(command, channel),
    {
        request_for(command, channel)
    }
}

} // verus!
