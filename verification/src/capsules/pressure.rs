//! Gives applications access to a pressure sensor.
//!
//! One reading is taken at a time. Command 1 asks for a reading; when the
//! sensor delivers it, every application that waits for one is called back
//! with the value.

use vstd::prelude::*;
use crate::process::{no_such_app, spec_no_such_app, Answer, AppId, Callback, Upcall};
use crate::returncode::ReturnCode;

verus! {

/// What the driver keeps for one application.
#[derive(Clone, Copy, Debug, PartialEq, Eq, Structural)]
pub struct App {
    pub callback: Option<Callback>,
    /// The application waits for a reading.
    pub subscribed: bool,
}

impl App {
    /// An application with no callback that waits for nothing.
    pub fn new() -> (app: App)
        ensures
            app == (App { callback: None, subscribed: false }),
    {
        App { callback: None, subscribed: false }
    }
}

/// What the sensor is asked to do.
#[derive(Clone, Copy, Debug, PartialEq, Eq, Structural)]
pub enum SensorRequest {
    ReadPressure,
}

/// The driver as a mathematical value.
pub struct PressureSensorView {
    pub apps: Seq<App>,
    /// A reading is being taken.
    pub busy: bool,
}

impl PressureSensorView {
    /// The callbacks scheduled when a reading arrives, for the applications
    /// from `from` on: one for each that waits and has a callback, in the
    /// order of the applications.
    pub open spec fn upcalls_from(self, value: usize, from: int) -> Seq<Upcall>
        decreases self.apps.len() - from,
    {
        if from < 0 || from >= self.apps.len() {
            Seq::empty()
        } else {
            let app = self.apps[from];
            let rest = self.upcalls_from(value, from + 1);
            if app.subscribed && app.callback is Some {
                seq![Upcall { callback: app.callback->0, r0: value, r1: 0, r2: 0 }] + rest
            } else {
                rest
            }
        }
    }

    /// Some application waits for a reading.
    pub open spec fn any_subscribed(self) -> bool {
        exists|i: int| 0 <= i < self.apps.len() && (#[trigger] self.apps[i]).subscribed
    }

    /// The driver after a reading arrived: nobody waits any more, and the
    /// driver is free if somebody did.
    pub open spec fn after_reading(self) -> PressureSensorView {
        PressureSensorView {
            apps: Seq::new(
                self.apps.len(),
                |i: int| App { subscribed: false, ..self.apps[i] },
            ),
            busy: self.busy && !self.any_subscribed(),
        }
    }
}

/// The driver of one pressure sensor.
pub struct PressureSensor {
    apps: Vec<App>,
    busy: bool,
}

impl View for PressureSensor {
    type V = PressureSensorView;

    closed spec fn view(&self) -> PressureSensorView {
        PressureSensorView { apps: self.apps@, busy: self.busy }
    }
}

impl PressureSensor {
    /// A free driver that serves the applications in `grant`.
    pub fn new(grant: Vec<App>) -> (driver: PressureSensor)
        ensures
            driver@ == (PressureSensorView { apps: grant@, busy: false }),
    {
        PressureSensor { apps: grant, busy: false }
    }

    /// Whether a reading is being taken.
    pub fn is_busy(&self) -> (busy: bool)
        ensures
            busy == self@.busy,
    {
        self.busy
    }

    /// What the driver keeps for `appid`, if the application exists.
    pub fn app(&self, appid: AppId) -> (app: Option<App>)
        ensures
            app == if appid.idx < self@.apps.len() {
                Some(self@.apps[appid.idx as int])
            } else {
                None
            },
    {
        if appid.idx < self.apps.len() {
            Some(self.apps[appid.idx])
        } else {
            None
        }
    }

    /// Asks for a reading on behalf of `appid`.
    ///
    /// With the driver free the application is marked as waiting, the
    /// driver becomes busy, and the sensor is to be asked: its answer is the
    /// answer to the request. With the driver busy the request is refused
    /// with `EBUSY`; for an application that does not exist, with `EINVAL`.
    pub fn enqueue_command(&mut self, appid: AppId) -> (r: Answer<SensorRequest>)
        ensures
            r == if appid.idx >= old(self)@.apps.len() {
                Answer::<SensorRequest>::Code(spec_no_such_app())
            } else if old(self)@.busy {
                Answer::Code(ReturnCode::EBUSY)
            } else {
                Answer::Device(SensorRequest::ReadPressure)
            },
            r is Code ==> final(self)@ == old(self)@,
            r is Device ==> final(self)@ == (PressureSensorView {
                apps: old(self)@.apps.update(
                    appid.idx as int,
                    App { subscribed: true, ..old(self)@.apps[appid.idx as int] },
                ),
                busy: true,
            }),
    {
        if appid.idx >= self.apps.len() {
            return Answer::Code(no_such_app());
        }
        if !self.busy {
            let app: App = self.apps[appid.idx];
            self.apps[appid.idx] = App { subscribed: true, ..app };
            self.busy = true;
            Answer::Device(SensorRequest::ReadPressure)
        } else {
            Answer::Code(ReturnCode::EBUSY)
        }
    }

    /// Registers, replaces or removes the callback of `app_id`.
    pub fn configure_callback(&mut self, callback: Option<Callback>, app_id: AppId) -> (r:
        ReturnCode)
        ensures
            r == if app_id.idx < old(self)@.apps.len() {
                ReturnCode::SUCCESS
            } else {
                spec_no_such_app()
            },
            r is SUCCESS ==> final(self)@ == (PressureSensorView {
                apps: old(self)@.apps.update(
                    app_id.idx as int,
                    App { callback, ..old(self)@.apps[app_id.idx as int] },
                ),
                ..old(self)@
            }),
            !(r is SUCCESS) ==> final(self)@ == old(self)@,
    {
        if app_id.idx >= self.apps.len() {
            return no_such_app();
        }
        let app: App = self.apps[app_id.idx];
        self.apps[app_id.idx] = App { callback, ..app };
        ReturnCode::SUCCESS
    }

    /// The sensor delivers a reading: every application that waits for one
    /// stops waiting and, if it has a callback, is called back with the
    /// value. The driver is free again if anybody waited.
    pub fn callback(&mut self, value: usize) -> (upcalls: Vec<Upcall>)
        ensures
            upcalls@ == old(self)@.upcalls_from(value, 0),
            final(self)@ == old(self)@.after_reading(),
    {
        let n: usize = self.apps.len();
        let mut upcalls: Vec<Upcall> = Vec::new();
        let mut i: usize = n;
        let ghost before = self@;
        while i > 0
            invariant
                i <= n,
                n == self.apps@.len(),
                n == before.apps.len(),
                upcalls@ == before.upcalls_from(value, i as int),
                forall|j: int| 0 <= j < i ==> self.apps@[j] == before.apps[j],
                forall|j: int|
                    i <= j < n ==> self.apps@[j] == (App { subscribed: false, ..before.apps[j] }),
                self.busy == (before.busy && !exists|j: int|
                    i <= j < n && (#[trigger] before.apps[j]).subscribed),
            decreases i,
        {
            i -= 1;
            let app: App = self.apps[i];
            if app.subscribed {
                self.busy = false;
                self.apps[i] = App { subscribed: false, ..app };
                match app.callback {
                    Some(cb) => {
                        upcalls.insert(0, cb.schedule(value, 0, 0));
                        assert(upcalls@ =~= before.upcalls_from(value, i as int));
                    },
                    None => {},
                }
            }
        }
        proof {
            assert(self.apps@ =~= before.after_reading().apps);
        }
        upcalls
    }

    /// Registers the callback of `app_id`. Only subscription 0 exists.
    pub fn subscribe(&mut self, subscribe_num: usize, callback: Option<Callback>, app_id: AppId) -> (r:
        ReturnCode)
        ensures
            r == if subscribe_num != 0 {
                ReturnCode::ENOSUPPORT
            } else if app_id.idx < old(self)@.apps.len() {
                ReturnCode::SUCCESS
            } else {
                spec_no_such_app()
            },
            r is SUCCESS ==> final(self)@ == (PressureSensorView {
                apps: old(self)@.apps.update(
                    app_id.idx as int,
                    App { callback, ..old(self)@.apps[app_id.idx as int] },
                ),
                ..old(self)@
            }),
            !(r is SUCCESS) ==> final(self)@ == old(self)@,
    {
        match subscribe_num {
            0 => self.configure_callback(callback, app_id),
            _ => ReturnCode::ENOSUPPORT,
        }
    }

    /// A request from the application: 0 asks whether the driver is there,
    /// 1 asks for a reading; anything else is `ENOSUPPORT`.
    ///
    pub fn command(&mut self, command_num: usize, data1: usize, data2: usize, appid: AppId) -> (r:
        Answer<SensorRequest>)
        ensures
            r == if command_num == 0 {
                Answer::<SensorRequest>::Code(ReturnCode::SUCCESS)
            } else if command_num != 1 {
                Answer::Code(ReturnCode::ENOSUPPORT)
            } else if appid.idx >= old(self)@.apps.len() {
                Answer::Code(spec_no_such_app())
            } else if old(self)@.busy {
                Answer::Code(ReturnCode::EBUSY)
            } else {
                Answer::Device(SensorRequest::ReadPressure)
            },
            r is Code ==> final(self)@ == old(self)@,
            r is Device ==> final(self)@ == (PressureSensorView {
                apps: old(self)@.apps.update(
                    appid.idx as int,
                    App { subscribed: true, ..old(self)@.apps[appid.idx as int] },
                ),
                busy: true,
            }),
    {
        match command_num {
            0 => Answer::Code(ReturnCode::SUCCESS),
            1 => self.enqueue_command(appid),
            _ => Answer::Code(ReturnCode::ENOSUPPORT),
        }
    }
}

} // verus!
