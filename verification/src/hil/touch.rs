//! Interface for touch input devices.

use vstd::prelude::*;
use crate::returncode::ReturnCode;

verus! {

/// Whether a finger went down or came up.
#[derive(Clone, Copy, Debug, PartialEq, Eq, Structural)]
pub enum TouchEvent {
    Pressed,
    Released,
}

/// A gesture recognised by the panel.
#[derive(Clone, Copy, Debug, PartialEq, Eq, Structural)]
pub enum GestureEvent {
    SwipeUp,
    SwipeDown,
    SwipeLeft,
    SwipeRight,
    ZoomIn,
    ZoomOut,
}

/// One touch point as the panel reports it.
#[derive(Clone, Copy, Debug, PartialEq, Eq, Structural)]
pub struct TouchPoint {
    pub id: usize,
    pub status: TouchEvent,
    pub x: u16,
    pub y: u16,
    pub size: Option<u16>,
    pub pressure: Option<u16>,
}

/// A single-touch panel.
pub trait Touch {
    fn enable(&mut self) -> ReturnCode;

    fn disable(&mut self) -> ReturnCode;

    /// Registers the client that touch events are addressed to.
    fn set_client(&mut self, touch_client: usize);
}

/// A panel that tracks several touches at once.
pub trait MultiTouch {
    /// Subscribe to one of the touches.
    fn subscribe_to_touch(id: usize) -> ReturnCode;

    /// Subscribe to all touches.
    fn subscribe_to_all() -> ReturnCode;

    /// The number of concurrently supported touches.
    fn get_num_touches() -> ReturnCode;
}

/// The party that a single-touch panel reports to.
pub trait TouchClient {
    /// What the client does in answer.
    type Response;

    fn touch_event(&mut self, event: TouchEvent, x: usize, y: usize) -> Self::Response;
}

/// The party that a multi-touch panel reports to.
pub trait MultiTouchClient {
    fn touch(id: usize, x: usize, y: usize);

    fn touch_move(id: usize, x: usize, y: usize);

    fn touch_up(id: usize, x: usize, y: usize);
}

/// A panel that recognises gestures.
pub trait Gesture {

}

} // verus!
