//! Gives applications the time of a sixteen-bit counter and the time passed
//! since they last asked.

use vstd::prelude::*;
use crate::process::{AppId, Callback, Upcall};

verus! {

/// Ticks of the counter per second.
pub const FREQUENCY_HZ: u32 = 16000;

/// Why a request failed.
#[derive(Clone, Copy, Debug, PartialEq, Eq, Structural)]
pub enum ErrorCode {
    FAIL,
    BUSY,
    ALREADY,
    OFF,
    RESERVE,
    INVAL,
    SIZE,
    CANCEL,
    NOMEM,
    NOSUPPORT,
    NODEVICE,
    UNINSTALLED,
    NOACK,
}

/// What the driver keeps for one application.
#[derive(Clone, Copy, Debug, PartialEq, Eq, Structural)]
pub struct TimerData {
    pub callback: Option<Callback>,
    /// The counter when the application last asked for the time.
    pub last_value: u16,
}

impl TimerData {
    /// An application with no callback that asked at tick zero.
    pub fn new() -> (data: TimerData)
        ensures
            data == (TimerData { callback: None, last_value: 0 }),
    {
        TimerData { callback: None, last_value: 0 }
    }
}

/// The counter value that a reading of the clock stands for: its low
/// sixteen bits.
pub open spec fn ticks16(now: u32) -> u16 {
    (now % 65536) as u16
}

/// Ticks from `last` to `new` on a counter that runs from 0 to 65535. Going
/// through the top counts one tick less than the distance.
pub open spec fn ticks_between(last: u16, new: u16) -> u16 {
    if new < last {
        (65535 - last + new) as u16
    } else {
        (new - last) as u16
    }
}

/// The time that `diff` ticks take, as the driver reports it: the product of
/// the ticks and one million, kept to thirty-two bits, divided by the
/// frequency.
pub open spec fn elapsed(diff: u16) -> usize {
    (((diff * 1000000) % 4294967296) / (FREQUENCY_HZ as int)) as usize
}

/// The time that `diff` ticks take, as the driver reports it.
pub fn elapsed_time(diff: u16) -> (r: usize)
    ensures
        r == elapsed(diff),
{
    let product: u64 = (diff as u64) * 1000000;
    let kept: u64 = product % 4294967296;
    (kept / (FREQUENCY_HZ as u64)) as usize
}

/// The driver as a counter's applications see it.
pub struct TimerDriver {
    app: Vec<TimerData>,
}

impl View for TimerDriver {
    type V = Seq<TimerData>;

    closed spec fn view(&self) -> Seq<TimerData> {
        self.app@
    }
}

impl TimerDriver {
    /// A driver that serves the applications in `app`.
    pub fn new(app: Vec<TimerData>) -> (driver: TimerDriver)
        ensures
            driver@ == app@,
    {
        TimerDriver { app }
    }

    /// What the driver keeps for `appid`, if the application exists.
    pub fn data(&self, appid: AppId) -> (data: Option<TimerData>)
        ensures
            data == if appid.idx < self@.len() {
                Some(self@[appid.idx as int])
            } else {
                None
            },
    {
        if appid.idx < self.app.len() {
            Some(self.app[appid.idx])
        } else {
            None
        }
    }

    /// Swaps the callback of `app_id` for `callback` and hands the old one
    /// back. Only subscription 0 exists; on failure the new callback comes
    /// back with the reason.
    pub fn subscribe(&mut self, subscribe_num: usize, callback: Option<Callback>, app_id: AppId) -> (r:
        Result<Option<Callback>, (Option<Callback>, ErrorCode)>)
        ensures
            r == if subscribe_num != 0 {
                Err::<Option<Callback>, (Option<Callback>, ErrorCode)>(
                    (callback, ErrorCode::NOSUPPORT),
                )
            } else if app_id.idx >= old(self)@.len() {
                Err((callback, ErrorCode::INVAL))
            } else {
                Ok(old(self)@[app_id.idx as int].callback)
            },
            r is Ok ==> final(self)@ == old(self)@.update(
                app_id.idx as int,
                TimerData { callback, ..old(self)@[app_id.idx as int] },
            ),
            r is Err ==> final(self)@ == old(self)@,
    {
        match subscribe_num {
            0 => {
                if app_id.idx < self.app.len() {
                    let td: TimerData = self.app[app_id.idx];
                    self.app[app_id.idx] = TimerData { callback, ..td };
                    Ok(td.callback)
                } else {
                    Err((callback, ErrorCode::INVAL))
                }
            },
            _ => Err((callback, ErrorCode::NOSUPPORT)),
        }
    }

    /// A request from the application, made when the clock reads `now`.
    ///
    /// 0 asks whether the driver is there. 1 notes the time and calls the
    /// application back with it. 2 calls the application back with the time
    /// and with what has passed since it was noted. Anything else is
    /// `NOSUPPORT`; an application that does not exist is `INVAL`.
    pub fn command(&mut self, cmd_num: usize, now: u32, appid: AppId) -> (r: (
        Result<(), ErrorCode>,
        Option<Upcall>,
    ))
        ensures
            r.0 == if cmd_num == 0 {
                Ok::<(), ErrorCode>(())
            } else if cmd_num > 2 {
                Err(ErrorCode::NOSUPPORT)
            } else if appid.idx >= old(self)@.len() {
                Err(ErrorCode::INVAL)
            } else {
                Ok(())
            },
            cmd_num == 1 && r.0 is Ok ==> {
                let td = old(self)@[appid.idx as int];
                &&& final(self)@ == old(self)@.update(
                    appid.idx as int,
                    TimerData { last_value: ticks16(now), ..td },
                )
                &&& r.1 == if td.callback is Some {
                    Some(Upcall { callback: td.callback->0, r0: 0, r1: now as usize, r2: 0 })
                } else {
                    None
                }
            },
            cmd_num == 2 && r.0 is Ok ==> {
                let td = old(self)@[appid.idx as int];
                &&& final(self)@ == old(self)@
                &&& r.1 == if td.callback is Some {
                    Some(
                        Upcall {
                            callback: td.callback->0,
                            r0: 0,
                            r1: ticks16(now) as usize,
                            r2: elapsed(ticks_between(td.last_value, ticks16(now))),
                        },
                    )
                } else {
                    None
                }
            },
            cmd_num == 0 || r.0 is Err ==> final(self)@ == old(self)@ && r.1 is None,
    {
        match cmd_num {
            0 => (Ok(()), None),
            1 => {
                if appid.idx >= self.app.len() {
                    return (Err(ErrorCode::INVAL), None);
                }
                let td: TimerData = self.app[appid.idx];
                self.app[appid.idx] = TimerData { last_value: (now % 65536) as u16, ..td };
                let upcall = match td.callback {
                    Some(cb) => Some(cb.schedule(0, now as usize, 0)),
                    None => None,
                };
                (Ok(()), upcall)
            },
            2 => {
                if appid.idx >= self.app.len() {
                    return (Err(ErrorCode::INVAL), None);
                }
                let td: TimerData = self.app[appid.idx];
                let last_value: u16 = td.last_value;
                let new: u16 = (now % 65536) as u16;
                let diff: u16 = if new < last_value {
                    65535 - last_value + new
                } else {
                    new - last_value
                };
                let diff_ms: usize = elapsed_time(diff);
                let upcall = match td.callback {
                    Some(cb) => Some(cb.schedule(0, new as usize, diff_ms)),
                    None => None,
                };
                (Ok(()), upcall)
            },
            _ => (Err(ErrorCode::NOSUPPORT), None),
        }
    }
}

} // verus!
