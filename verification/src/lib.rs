//! A platform-abstraction layer for window and event-loop management.
//!
//! The crate models the backend of a windowing library: a coordinate model
//! (logical vs. physical units and a scale factor), opaque identities for
//! windows and input devices, a monitor directory, a window controller that
//! owns one window's presentation state, and an event loop with two dispatch
//! modes plus a cross-thread wakeup proxy.

pub mod dpi;
pub mod events;
pub mod events_loop;
pub mod identity;
pub mod monitor;
pub mod window;

pub use crate::events::ControlFlow;
pub use crate::events::Event;
pub use crate::events_loop::EventsLoop;
pub use crate::events_loop::EventsLoopClosed;
pub use crate::events_loop::EventsLoopProxy;
pub use crate::events_loop::EventsLoopView;
pub use crate::identity::DeviceId;
pub use crate::identity::WindowId;
pub use crate::monitor::MonitorId;
pub use crate::window::BadIcon;
pub use crate::window::CreationError;
pub use crate::window::Icon;
pub use crate::window::IconView;
pub use crate::window::MouseCursor;
pub use crate::window::PlatformSpecificHeadlessBuilderAttributes;
pub use crate::window::PlatformSpecificWindowBuilderAttributes;
pub use crate::window::Window;
pub use crate::window::WindowAttributes;
pub use crate::window::WindowView;
