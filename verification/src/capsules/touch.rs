//! Gives applications access to the touch panel.

use vstd::prelude::*;
use crate::hil::touch::{GestureEvent, TouchClient, TouchEvent};
use crate::process::{no_such_app, spec_no_such_app, Answer, AppId, Callback, Upcall};
use crate::returncode::ReturnCode;

verus! {

/// What the driver keeps for one application.
#[derive(Clone, Copy, Debug, PartialEq, Eq, Structural)]
pub struct App {
    pub callback: Option<Callback>,
}

impl App {
    /// An application with no callback.
    pub fn new() -> (app: App)
        ensures
            app == (App { callback: None }),
    {
        App { callback: None }
    }
}

/// What the panel is asked to do.
#[derive(Clone, Copy, Debug, PartialEq, Eq, Structural)]
pub enum PanelRequest {
    Enable,
    Disable,
}

/// The number that stands for an event in a callback: one for a press, zero
/// for a release.
pub open spec fn event_id(event: TouchEvent) -> usize {
    match event {
        TouchEvent::Released => 0,
        TouchEvent::Pressed => 1,
    }
}

/// The callbacks scheduled for a touch, for the applications from `from`
/// on: one for each that has a callback, in the order of the applications.
pub open spec fn upcalls_from(apps: Seq<App>, event: TouchEvent, x: usize, y: usize, from: int) -> Seq<
    Upcall,
>
    decreases apps.len() - from,
{
    if from < 0 || from >= apps.len() {
        Seq::empty()
    } else {
        let rest = upcalls_from(apps, event, x, y, from + 1);
        if apps[from].callback is Some {
            seq![Upcall { callback: apps[from].callback->0, r0: x, r1: y, r2: event_id(event) }]
                + rest
        } else {
            rest
        }
    }
}

/// The driver that passes touches on to applications.
pub struct Touch {
    apps: Vec<App>,
}

impl View for Touch {
    type V = Seq<App>;

    closed spec fn view(&self) -> Seq<App> {
        self.apps@
    }
}

impl Touch {
    /// A driver that serves the applications in `grant`.
    pub fn new(grant: Vec<App>) -> (driver: Touch)
        ensures
            driver@ == grant@,
    {
        Touch { apps: grant }
    }

    /// A gesture is noted and passed on to nobody.
    pub fn gesture_event(&self, event: GestureEvent) {
    }

    /// Registers, replaces or removes the callback of `app_id`. Only
    /// subscription 0 exists.
    pub fn subscribe(&mut self, subscribe_num: usize, callback: Option<Callback>, app_id: AppId) -> (r:
        ReturnCode)
        ensures
            r == if subscribe_num != 0 {
                ReturnCode::ENOSUPPORT
            } else if app_id.idx < old(self)@.len() {
                ReturnCode::SUCCESS
            } else {
                spec_no_such_app()
            },
            r is SUCCESS ==> final(self)@ == old(self)@.update(
                app_id.idx as int,
                App { callback },
            ),
            !(r is SUCCESS) ==> final(self)@ == old(self)@,
    {
        match subscribe_num {
            0 => {
                if app_id.idx < self.apps.len() {
                    self.apps[app_id.idx] = App { callback };
                    ReturnCode::SUCCESS
                } else {
                    no_such_app()
                }
            },
            _ => ReturnCode::ENOSUPPORT,
        }
    }

    /// A request from the application: 0 asks whether the driver is there,
    /// 1 enables the panel, 2 disables it; anything else is `ENOSUPPORT`.
    pub fn command(&self, command_num: usize, data1: usize, data2: usize, appid: AppId) -> (r:
        Answer<PanelRequest>)
        ensures
            r == match command_num {
                0 => Answer::<PanelRequest>::Code(ReturnCode::SUCCESS),
                1 => Answer::Device(PanelRequest::Enable),
                2 => Answer::Device(PanelRequest::Disable),
                _ => Answer::Code(ReturnCode::ENOSUPPORT),
            },
    {
        match command_num {
            0 => Answer::Code(ReturnCode::SUCCESS),
            1 => Answer::Device(PanelRequest::Enable),
            2 => Answer::Device(PanelRequest::Disable),
            _ => Answer::Code(ReturnCode::ENOSUPPORT),
        }
    }
}

impl TouchClient for Touch {
    type Response = Vec<Upcall>;

    /// A touch at (`x`, `y`): every application with a callback is called
    /// back with the position and the event.
    fn touch_event(&mut self, event: TouchEvent, x: usize, y: usize) -> (upcalls: Vec<Upcall>)
        ensures
            upcalls@ == upcalls_from(old(self)@, event, x, y, 0),
            final(self)@ == old(self)@,
    {
        let event_id: usize = match event {
            TouchEvent::Released => 0,
            TouchEvent::Pressed => 1,
        };
        let n: usize = self.apps.len();
        let mut upcalls: Vec<Upcall> = Vec::new();
        let mut i: usize = n;
        while i > 0
            invariant
                i <= n,
                n == self.apps@.len(),
                event_id == self::event_id(event),
                upcalls@ == upcalls_from(self.apps@, event, x, y, i as int),
            decreases i,
        {
            i -= 1;
            match self.apps[i].callback {
                Some(cb) => {
                    upcalls.insert(0, cb.schedule(x, y, event_id));
                    assert(upcalls@ =~= upcalls_from(self.apps@, event, x, y, i as int));
                },
                None => {},
            }
        }
        upcalls
    }
}

} // verus!
