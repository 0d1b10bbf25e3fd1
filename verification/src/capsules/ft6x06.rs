//! Driver for the FT6x06 touch panel.
//!
//! When the panel raises its interrupt line the driver sets the register
//! address, reads the touch data, decodes it and reports it to its clients.

use vstd::prelude::*;
use crate::buffer::bytes_of;
use crate::hil::bus::{BusWidth, Request};
use crate::hil::touch::{GestureEvent, Touch, TouchEvent, TouchPoint};
use crate::process::AppId;
use crate::returncode::ReturnCode;

verus! {

/// Bytes of the buffer that a board usually provides.
pub const BUFFER_SIZE: usize = 17;

/// Register that holds the gesture; the touch data follows it.
pub const REG_GEST_ID: usize = 0x01;

/// Register that holds the number of touches.
pub const REG_TD_STATUS: usize = 0x02;

/// Register that holds the chip's identity.
pub const REG_CHIPID: usize = 0xA3;

/// Bytes read from the panel for one report.
pub const REPORT_LEN: usize = 15;

/// The step that is outstanding on the bus.
#[derive(Clone, Copy, Debug, PartialEq, Eq, Structural)]
pub enum State {
    Idle,
    ReadingTouchesCmd,
    ReadingTouchesData,
}

/// What to do with the panel's interrupt line.
#[derive(Clone, Copy, Debug, PartialEq, Eq, Structural)]
pub enum Interrupts {
    Disable,
    /// Enable, for the falling edge.
    EnableFallingEdge,
}

/// The same touch reported `count` times over to a multi-touch client.
#[derive(Clone, Copy, Debug, PartialEq, Eq, Structural)]
pub struct MultiTouchReport {
    pub client: usize,
    pub event: TouchPoint,
    pub count: usize,
}

/// Everything one step of the driver asks for.
#[derive(Debug, PartialEq, Eq)]
pub struct Effects {
    pub interrupts: Option<Interrupts>,
    pub bus: Option<Request>,
    /// A touch for the touch client: the client, then the touch.
    pub touch: Option<(usize, TouchPoint)>,
    /// A gesture for the gesture client: the client, then the gesture.
    pub gesture: Option<(usize, GestureEvent)>,
    pub multi_touch: Option<MultiTouchReport>,
}

/// The number of touches that a report holds: the low four bits of its
/// first byte.
pub open spec fn touches_in(report: Seq<u8>) -> usize {
    (report[0] % 16) as usize
}

/// The touch in the seven bytes of `data` that start at `base`: the event
/// in the top two bits of the first byte (zero is a press, anything else a
/// release), twelve bits each for column and row, then pressure and size.
pub open spec fn touch_at(data: Seq<u8>, base: int) -> TouchPoint {
    TouchPoint {
        id: 0,
        status: if data[base] / 64 == 0 {
            TouchEvent::Pressed
        } else {
            TouchEvent::Released
        },
        x: ((data[base + 1] % 16) * 256 + data[base + 2]) as u16,
        y: ((data[base + 3] % 16) * 256 + data[base + 4]) as u16,
        pressure: Some(data[base + 5] as u16),
        size: Some(data[base + 6] as u16),
    }
}

/// The gesture that a first byte stands for, if any.
pub open spec fn gesture_of(byte: u8) -> Option<GestureEvent> {
    match byte {
        0x10 => Some(GestureEvent::SwipeUp),
        0x14 => Some(GestureEvent::SwipeRight),
        0x18 => Some(GestureEvent::SwipeDown),
        0x1C => Some(GestureEvent::SwipeLeft),
        0x48 => Some(GestureEvent::ZoomIn),
        0x49 => Some(GestureEvent::ZoomOut),
        _ => None,
    }
}

/// Decodes the touch in the seven bytes of `data` that start at `base`.
pub fn decode_touch(data: &Vec<u8>, base: usize) -> (touch: TouchPoint)
    requires
        base + 7 <= data@.len(),
    ensures
        touch == touch_at(data@, base as int),
{
    let capacity: usize = data.len();
    let status = match data[base] / 64 {
        0x00 => TouchEvent::Pressed,
        _ => TouchEvent::Released,
    };
    let x: u16 = ((data[base + 1] % 16) as u16) * 256 + (data[base + 2] as u16);
    let y: u16 = ((data[base + 3] % 16) as u16) * 256 + (data[base + 4] as u16);
    TouchPoint {
        id: 0,
        status,
        x,
        y,
        pressure: Some(data[base + 5] as u16),
        size: Some(data[base + 6] as u16),
    }
}

/// Decodes the gesture that a first byte stands for.
pub fn decode_gesture(byte: u8) -> (gesture: Option<GestureEvent>)
    ensures
        gesture == gesture_of(byte),
{
    match byte {
        0x10 => Some(GestureEvent::SwipeUp),
        0x14 => Some(GestureEvent::SwipeRight),
        0x18 => Some(GestureEvent::SwipeDown),
        0x1C => Some(GestureEvent::SwipeLeft),
        0x48 => Some(GestureEvent::ZoomIn),
        0x49 => Some(GestureEvent::ZoomOut),
        _ => None,
    }
}

/// The driver of one panel.
pub struct Ft6x06 {
    touch_client: Option<usize>,
    gesture_client: Option<usize>,
    multi_touch_client: Option<usize>,
    state: State,
    num_touches: usize,
    buffer: Option<Vec<u8>>,
    events: Vec<TouchPoint>,
}

/// The driver as a mathematical value.
pub struct Ft6x06View {
    pub touch_client: Option<usize>,
    pub gesture_client: Option<usize>,
    pub multi_touch_client: Option<usize>,
    pub state: State,
    /// Touches in the report read last.
    pub num_touches: usize,
    /// The buffer, while the driver holds it.
    pub buffer: Option<Seq<u8>>,
    /// The touches reported last to the multi-touch client.
    pub events: Seq<TouchPoint>,
}

impl Ft6x06View {
    /// There is room for the two touches that the panel can track.
    pub open spec fn wf(self) -> bool {
        self.events.len() >= 2
    }

    /// The touches kept for the multi-touch client after a report: with a
    /// client and at most two touches, each of them is the touch decoded
    /// from the report.
    pub open spec fn events_after(self, report: Seq<u8>) -> Seq<TouchPoint> {
        if self.multi_touch_client is Some && touches_in(report) <= 2 {
            Seq::new(
                self.events.len(),
                |i: int|
                    if i < touches_in(report) {
                        touch_at(report, 0)
                    } else {
                        self.events[i]
                    },
            )
        } else {
            self.events
        }
    }
}

impl View for Ft6x06 {
    type V = Ft6x06View;

    closed spec fn view(&self) -> Ft6x06View {
        Ft6x06View {
            touch_client: self.touch_client,
            gesture_client: self.gesture_client,
            multi_touch_client: self.multi_touch_client,
            state: self.state,
            num_touches: self.num_touches,
            buffer: bytes_of(self.buffer),
            events: self.events@,
        }
    }
}

impl Ft6x06 {
    /// An idle driver that owns `buffer` for reports and `events` for the
    /// touches it hands to a multi-touch client, and what to do with the
    /// interrupt line from the start: listen for the falling edge. The
    /// driver can work with room for the two touches that the panel tracks.
    pub fn new(buffer: Vec<u8>, events: Vec<TouchPoint>) -> (r: (Ft6x06, Interrupts))
        ensures
            r.0@ == (Ft6x06View {
                touch_client: None,
                gesture_client: None,
                multi_touch_client: None,
                state: State::Idle,
                num_touches: 0,
                buffer: Some(buffer@),
                events: events@,
            }),
            events@.len() >= 2 ==> r.0@.wf(),
            r.1 is EnableFallingEdge,
    {
        (
            Ft6x06 {
                touch_client: None,
                gesture_client: None,
                multi_touch_client: None,
                state: State::Idle,
                num_touches: 0,
                buffer: Some(buffer),
                events,
            },
            Interrupts::EnableFallingEdge,
        )
    }

    /// Whether the driver can work: there is room for the two touches that
    /// the panel tracks.
    pub fn is_well_formed(&self) -> (r: bool)
        ensures
            r == self@.wf(),
    {
        self.events.len() >= 2
    }

    /// The step outstanding on the bus.
    pub fn state(&self) -> (s: State)
        ensures
            s == self@.state,
    {
        self.state
    }

    /// The panel raised its interrupt line: the line is silenced and the
    /// register address is set for the read that follows.
    pub fn fired(&mut self) -> (effects: Effects)
        ensures
            final(self)@ == (Ft6x06View { state: State::ReadingTouchesCmd, ..old(self)@ }),
            effects == (Effects {
                interrupts: Some(Interrupts::Disable),
                bus: Some(Request::SetAddr { addr_width: BusWidth::Bits8, addr: REG_GEST_ID }),
                touch: None,
                gesture: None,
                multi_touch: None,
            }),
    {
        self.state = State::ReadingTouchesCmd;
        Effects {
            interrupts: Some(Interrupts::Disable),
            bus: Some(Request::SetAddr { addr_width: BusWidth::Bits8, addr: REG_GEST_ID }),
            touch: None,
            gesture: None,
            multi_touch: None,
        }
    }

    /// The bus is done with a step.
    ///
    /// After the address is set, the report is read into the driver's
    /// buffer. After the report is read, it is decoded: with at most two
    /// touches in it, the touch goes to the touch client, the gesture (if
    /// the first byte names one) to the gesture client, and the touch, once
    /// for each touch counted, to the multi-touch client. The buffer returns
    /// to the driver and the interrupt line is listened to again.
    pub fn command_complete(&mut self, buffer: Option<Vec<u8>>, len: usize) -> (effects: Effects)
        requires
            old(self)@.wf(),
            !(old(self)@.state is Idle),
            old(self)@.state is ReadingTouchesCmd ==> buffer is None,
            old(self)@.state is ReadingTouchesData && buffer is Some ==> buffer->0@.len() >= 7,
        ensures
            final(self)@.wf(),
            old(self)@.state is ReadingTouchesCmd ==> {
                &&& final(self)@ == (Ft6x06View {
                    state: State::ReadingTouchesData,
                    buffer: None,
                    ..old(self)@
                })
                &&& effects.interrupts is None && effects.touch is None && effects.gesture is None
                    && effects.multi_touch is None
                &&& old(self)@.buffer is None ==> effects.bus is None
                &&& old(self)@.buffer is Some ==> (effects.bus matches Some(
                    Request::Read { data_width, buffer: b, len: n },
                ) && data_width is Bits8 && b@ == old(self)@.buffer->0 && n == REPORT_LEN)
            },
            old(self)@.state is ReadingTouchesData && buffer is None ==> {
                &&& final(self)@ == (Ft6x06View { state: State::Idle, ..old(self)@ })
                &&& effects == (Effects {
                    interrupts: None,
                    bus: None,
                    touch: None,
                    gesture: None,
                    multi_touch: None,
                })
            },
            old(self)@.state is ReadingTouchesData && buffer is Some ==> {
                let report = buffer->0@;
                let few = touches_in(report) <= 2;
                &&& final(self)@ == (Ft6x06View {
                    state: State::Idle,
                    num_touches: touches_in(report),
                    buffer: Some(report),
                    events: old(self)@.events_after(report),
                    ..old(self)@
                })
                &&& effects.interrupts == Some(Interrupts::EnableFallingEdge)
                &&& effects.bus is None
                &&& effects.touch == if few && old(self)@.touch_client is Some {
                    Some((old(self)@.touch_client->0, touch_at(report, 0)))
                } else {
                    None
                }
                &&& effects.gesture == if few && old(self)@.gesture_client is Some && gesture_of(
                    report[0],
                ) is Some {
                    Some((old(self)@.gesture_client->0, gesture_of(report[0])->0))
                } else {
                    None
                }
                &&& effects.multi_touch == if few && old(self)@.multi_touch_client is Some {
                    Some(
                        MultiTouchReport {
                            client: old(self)@.multi_touch_client->0,
                            event: touch_at(report, 0),
                            count: touches_in(report),
                        },
                    )
                } else {
                    None
                }
            },
    {
        match self.state {
            State::ReadingTouchesCmd => {
                self.state = State::ReadingTouchesData;
                let bus = match self.buffer.take() {
                    Some(buffer) => Some(
                        Request::Read { data_width: BusWidth::Bits8, buffer, len: REPORT_LEN },
                    ),
                    None => None,
                };
                Effects { interrupts: None, bus, touch: None, gesture: None, multi_touch: None }
            },
            _ => {
                self.state = State::Idle;
                match buffer {
                    Some(buffer) => {
                        let num_touches: usize = (buffer[0] % 16) as usize;
                        self.num_touches = num_touches;
                        let few: bool = num_touches <= 2;
                        let event: TouchPoint = decode_touch(&buffer, 0);
                        let touch = match self.touch_client {
                            Some(client) => if few {
                                Some((client, event))
                            } else {
                                None
                            },
                            None => None,
                        };
                        let gesture = match (self.gesture_client, decode_gesture(buffer[0])) {
                            (Some(client), Some(gesture)) => if few {
                                Some((client, gesture))
                            } else {
                                None
                            },
                            _ => None,
                        };
                        let multi_touch = match self.multi_touch_client {
                            Some(client) => if few {
                                self.keep_events(event, num_touches);
                                Some(MultiTouchReport { client, event, count: num_touches })
                            } else {
                                None
                            },
                            None => None,
                        };
                        proof {
                            assert(self.events@ =~= old(self)@.events_after(buffer@));
                        }
                        self.buffer = Some(buffer);
                        Effects {
                            interrupts: Some(Interrupts::EnableFallingEdge),
                            bus: None,
                            touch,
                            gesture,
                            multi_touch,
                        }
                    },
                    None => Effects {
                        interrupts: None,
                        bus: None,
                        touch: None,
                        gesture: None,
                        multi_touch: None,
                    },
                }
            },
        }
    }

    /// Keeps `event` as each of the first `count` touches.
    fn keep_events(&mut self, event: TouchPoint, count: usize)
        requires
            count <= 2 <= old(self).events@.len(),
        ensures
            final(self)@ == (Ft6x06View {
                events: Seq::new(
                    old(self)@.events.len(),
                    |i: int|
                        if i < count {
                            event
                        } else {
                            old(self)@.events[i]
                        },
                ),
                ..old(self)@
            }),
    {
        let mut i: usize = 0;
        while i < count
            invariant
                i <= count <= 2 <= self.events@.len(),
                self.events@.len() == old(self).events@.len(),
                forall|j: int| 0 <= j < i ==> self.events@[j] == event,
                forall|j: int| i <= j < self.events@.len() ==> self.events@[j] == old(
                    self,
                ).events@[j],
                self@ == (Ft6x06View { events: self.events@, ..old(self)@ }),
            decreases count - i,
        {
            self.events[i] = event;
            i += 1;
        }
        assert(self.events@ =~= Seq::new(
            old(self)@.events.len(),
            |i: int|
                if i < count {
                    event
                } else {
                    old(self)@.events[i]
                },
        ));
    }

    /// Registers the client that gestures go to.
    pub fn set_gesture_client(&mut self, client: usize)
        ensures
            final(self)@ == (Ft6x06View { gesture_client: Some(client), ..old(self)@ }),
    {
        self.gesture_client = Some(client);
    }

    /// Registers the client that multi-touch reports go to.
    pub fn set_multi_touch_client(&mut self, client: usize)
        ensures
            final(self)@ == (Ft6x06View { multi_touch_client: Some(client), ..old(self)@ }),
    {
        self.multi_touch_client = Some(client);
    }

    /// The number of touches that the panel can track.
    pub fn get_num_touches(&self) -> (n: usize)
        ensures
            n == 2,
    {
        2
    }

    /// Touch number `index` of the report that the driver holds: the seven
    /// bytes behind the first byte and the touches before it. Nothing if
    /// the driver holds no report, the report counts fewer touches, or the
    /// report is too short.
    pub fn get_touch(&self, index: usize) -> (touch: Option<TouchPoint>)
        ensures
            touch == if self@.buffer is Some && index <= self@.num_touches && index * 7 + 8
                <= self@.buffer->0.len() {
                Some(touch_at(self@.buffer->0, index * 7 + 1))
            } else {
                None
            },
    {
        match &self.buffer {
            None => None,
            Some(buffer) => {
                if index <= self.num_touches && buffer.len() >= 8 && index <= (buffer.len() - 8)
                    / 7 {
                    Some(decode_touch(buffer, index * 7 + 1))
                } else {
                    None
                }
            },
        }
    }

    /// A request from the application: 0 asks whether the driver is there;
    /// anything else is `ENOSUPPORT`.
    pub fn command(&self, command_num: usize, data1: usize, data2: usize, appid: AppId) -> (r:
        ReturnCode)
        ensures
            r == if command_num == 0 {
                ReturnCode::SUCCESS
            } else {
                ReturnCode::ENOSUPPORT
            },
    {
        match command_num {
            0 => ReturnCode::SUCCESS,
            _ => ReturnCode::ENOSUPPORT,
        }
    }
}

impl Touch for Ft6x06 {
    /// The touch panel is always on.
    fn enable(&mut self) -> (r: ReturnCode)
        ensures
            r is SUCCESS,
            final(self)@ == old(self)@,
    {
        ReturnCode::SUCCESS
    }

    /// The touch panel is always on.
    fn disable(&mut self) -> (r: ReturnCode)
        ensures
            r is SUCCESS,
            final(self)@ == old(self)@,
    {
        ReturnCode::SUCCESS
    }

    fn set_client(&mut self, touch_client: usize)
        ensures
            final(self)@ == (Ft6x06View { touch_client: Some(touch_client), ..old(self)@ }),
    {
        self.touch_client = Some(touch_client);
    }
}

} // verus!
