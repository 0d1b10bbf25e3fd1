//! What a screen driver asks of its surroundings, and what it tells its
//! clients.

use vstd::prelude::*;
use crate::hil::memory_async::{MemoryRequest, MemoryRequestView};
use crate::process::Upcall;
use crate::returncode::ReturnCode;

verus! {

/// How the picture is turned on the panel.
#[derive(Clone, Copy, Debug, PartialEq, Eq, Structural)]
pub enum ScreenRotation {
    Normal,
    Rotated90,
    Rotated180,
    Rotated270,
}

/// Layout of one pixel in memory.
#[allow(non_camel_case_types)]
#[derive(Clone, Copy, Debug, PartialEq, Eq, Structural)]
pub enum ScreenPixelFormat {
    /// One bit per pixel.
    Mono,
    /// Eight bits per pixel.
    RGB_233,
    /// Sixteen bits per pixel.
    RGB_565,
    /// Twenty-four bits per pixel.
    RGB_888,
    /// Thirty-two bits per pixel.
    ARGB_8888,
}

/// The level to drive the panel's reset line to.
#[derive(Clone, Copy, Debug, PartialEq, Eq, Structural)]
pub enum ResetLine {
    Low,
    High,
}

/// What a screen driver tells one of its clients.
#[derive(Debug, PartialEq, Eq)]
#[allow(inconsistent_fields)]
pub enum Notification {
    /// The panel is initialised and can be used.
    ScreenIsReady { client: usize },
    /// A configuration command is over.
    SetupCommandComplete { client: usize, code: ReturnCode },
    /// A write is over; the client's buffer comes back. With no client
    /// registered the buffer still leaves the driver.
    WriteComplete { client: Option<usize>, buffer: Vec<u8>, code: ReturnCode },
    /// A command other than a write is over.
    CommandComplete { client: usize, code: ReturnCode },
}

/// A notification as a mathematical value.
#[allow(inconsistent_fields)]
pub enum NotificationView {
    ScreenIsReady { client: usize },
    SetupCommandComplete { client: usize, code: ReturnCode },
    WriteComplete { client: Option<usize>, buffer: Seq<u8>, code: ReturnCode },
    CommandComplete { client: usize, code: ReturnCode },
}

impl View for Notification {
    type V = NotificationView;

    open spec fn view(&self) -> NotificationView {
        match self {
            Notification::ScreenIsReady { client } => NotificationView::ScreenIsReady {
                client: *client,
            },
            Notification::SetupCommandComplete {
                client,
                code,
            } => NotificationView::SetupCommandComplete { client: *client, code: *code },
            Notification::WriteComplete { client, buffer, code } => NotificationView::WriteComplete {
                client: *client,
                buffer: buffer@,
                code: *code,
            },
            Notification::CommandComplete { client, code } => NotificationView::CommandComplete {
                client: *client,
                code: *code,
            },
        }
    }
}

/// Everything one step of a screen driver asks for. Each part goes to a
/// different party, so a step asks for at most one of each.
#[derive(Debug, PartialEq, Eq)]
pub struct Effects {
    /// A transfer to start on the panel's memory interface.
    pub memory: Option<MemoryRequest>,
    /// A level to drive the reset line to.
    pub reset: Option<ResetLine>,
    /// An alarm to arm, in milliseconds from now.
    pub alarm_ms: Option<u32>,
    /// A callback to schedule for the application.
    pub upcall: Option<Upcall>,
    /// A client to notify.
    pub notification: Option<Notification>,
}

/// The effects of a step as a mathematical value.
pub struct EffectsView {
    pub memory: Option<MemoryRequestView>,
    pub reset: Option<ResetLine>,
    pub alarm_ms: Option<u32>,
    pub upcall: Option<Upcall>,
    pub notification: Option<NotificationView>,
}

impl View for Effects {
    type V = EffectsView;

    open spec fn view(&self) -> EffectsView {
        EffectsView {
            memory: match self.memory {
                Some(m) => Some(m@),
                None => None,
            },
            reset: self.reset,
            alarm_ms: self.alarm_ms,
            upcall: self.upcall,
            notification: match self.notification {
                Some(n) => Some(n@),
                None => None,
            },
        }
    }
}

impl EffectsView {
    /// A step that asks for nothing.
    pub open spec fn none() -> EffectsView {
        EffectsView { memory: None, reset: None, alarm_ms: None, upcall: None, notification: None }
    }
}

impl Effects {
    /// A step that asks for nothing.
    pub fn none() -> (e: Effects)
        ensures
            e@ == EffectsView::none(),
    {
        Effects { memory: None, reset: None, alarm_ms: None, upcall: None, notification: None }
    }
}

} // verus!
