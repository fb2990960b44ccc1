//! The uniform event surface: the tagged union delivered to application
//! callbacks, and the control-flow value a `run_forever` callback answers
//! with.

use crate::dpi::LogicalPosition;
use crate::dpi::LogicalSize;
use crate::identity::DeviceId;
use crate::identity::WindowId;
use vstd::prelude::*;

verus! {

/// A notification produced by the event loop and consumed exactly once by
/// the application callback. Window events carry the identity of the window
/// they originate from; pointer events also carry the input device.
#[derive(Debug, Clone, Copy, PartialEq, Eq, Structural)]
pub enum Event {
    /// The window's client area took a new size.
    Resized(WindowId, LogicalSize),
    /// The window moved to a new outer position.
    Moved(WindowId, LogicalPosition),
    /// The user asked for the window to close.
    CloseRequested(WindowId),
    /// The window gained or lost keyboard focus.
    Focused(WindowId, bool),
    /// The window received a character of text input.
    ReceivedCharacter(WindowId, char),
    /// A pointing device moved over the window's client area.
    CursorMoved(WindowId, DeviceId, LogicalPosition),
    /// The window needs to be redrawn.
    RedrawRequested(WindowId),
    /// The loop was woken by a proxy `wakeup` call.
    Awakened,
}

/// The answer a `run_forever` callback gives after each event: keep
/// dispatching, or terminate the loop.
#[derive(Debug, Clone, Copy, PartialEq, Eq, Structural)]
pub enum ControlFlow {
    /// Keep running the loop.
    Continue,
    /// Terminate the loop before the next event is dispatched.
    Break,
}

} // verus!
