//! The window controller: construction attributes, the presentation state a
//! window owns, and the get/set operations on it.
//!
//! Setters are fire-and-forget: on this backend every supported setter
//! simply records the last applied value, and getters report that value (or
//! a backend default, or `None` where the platform reports nothing). The two
//! exceptions are `grab_cursor` and `set_cursor_position`, which answer with
//! a `Result` because refusal is a real, catchable condition.

use crate::dpi::LogicalPosition;
use crate::dpi::LogicalSize;
use crate::dpi::ScaleFactor;
use crate::events_loop::EventsLoop;
use crate::events_loop::EventsLoopView;
use crate::identity::WindowId;
use crate::monitor::available_monitors;
use crate::monitor::spec_monitors;
use crate::monitor::spec_primary_monitor;
use crate::monitor::MonitorId;
use std::collections::VecDeque;
use vstd::prelude::*;

verus! {

#[verifier::external_type_specification]
#[verifier::external_body]
pub struct ExRawWindowHandle(raw_window_handle::RawWindowHandle);

/// The cursor icon a window asks the platform to show.
#[derive(Debug, Clone, Copy, PartialEq, Eq, Structural)]
pub enum MouseCursor {
    /// The platform's default arrow cursor.
    Default,
    Crosshair,
    Hand,
    Text,
    Wait,
    Help,
    Progress,
    NotAllowed,
    Move,
    Grab,
}

impl Default for MouseCursor {
    /// The platform default cursor.
    fn default() -> (r: MouseCursor)
        ensures
            r == MouseCursor::Default,
    {
        MouseCursor::Default
    }
}

/// A window icon: an RGBA image holding exactly four bytes per pixel.
#[derive(Debug, Clone)]
pub struct Icon {
    rgba: Vec<u8>,
    width: u32,
    height: u32,
}

/// The state of an icon that contracts speak about.
#[verifier::ext_equal]
pub ghost struct IconView {
    pub rgba: Seq<u8>,
    pub width: u32,
    pub height: u32,
}

impl View for Icon {
    type V = IconView;

    closed spec fn view(&self) -> IconView {
        IconView { rgba: self.rgba@, width: self.width, height: self.height }
    }
}

/// The error reported for pixel data that does not match the announced
/// icon dimensions.
#[derive(Debug, Clone, Copy, PartialEq, Eq, Structural)]
pub struct BadIcon;

impl Icon {
    /// An icon is well formed when it holds exactly four bytes per pixel.
    pub open spec fn wf(&self) -> bool {
        self@.rgba.len() == 4 * self@.width * self@.height
    }

    /// Validates RGBA pixel data against the announced dimensions: accepted
    /// exactly when `rgba` holds `4 * width * height` bytes.
    pub fn from_rgba(rgba: Vec<u8>, width: u32, height: u32) -> (r: Result<Icon, BadIcon>)
        ensures
            r is Ok <==> rgba@.len() == 4 * width * height,
            r matches Ok(icon) ==> icon@ == (IconView { rgba: rgba@, width, height })
                && icon.wf(),
            r matches Err(e) ==> e == BadIcon,
    {
        proof {
            assert(4 * (width as int) * (height as int) < u128::MAX) by (nonlinear_arith)
                requires
                    width <= 0xffff_ffffu32,
                    height <= 0xffff_ffffu32,
            ;
            assert(4 * (width as int) * (height as int) >= 0) by (nonlinear_arith)
                requires
                    width >= 0,
                    height >= 0,
            ;
        }
        let need: u128 = 4u128 * (width as u128) * (height as u128);
        if (rgba.len() as u128) == need {
            Ok(Icon { rgba, width, height })
        } else {
            Err(BadIcon)
        }
    }

    /// The announced width in pixels.
    pub fn width(&self) -> (r: u32)
        ensures
            r == self@.width,
    {
        self.width
    }

    /// The announced height in pixels.
    pub fn height(&self) -> (r: u32)
        ensures
            r == self@.height,
    {
        self.height
    }
}

/// The icon state an optional icon stands for.
pub open spec fn spec_icon_view(icon: Option<Icon>) -> Option<IconView> {
    match icon {
        Some(i) => Some(i@),
        None => None,
    }
}

/// The attributes a caller hands to `Window::new`. All fields are plainly
/// settable; what a backend cannot honour it ignores.
#[derive(Debug, Clone)]
pub struct WindowAttributes {
    /// The requested inner (client-area) size, in logical units.
    pub dimensions: Option<LogicalSize>,
    /// The smallest inner size the window may take.
    pub min_dimensions: Option<LogicalSize>,
    /// The largest inner size the window may take.
    pub max_dimensions: Option<LogicalSize>,
    /// Whether the user may resize the window.
    pub resizable: bool,
    /// The window title.
    pub title: String,
    /// Whether the window starts maximized.
    pub maximized: bool,
    /// Whether the window starts visible.
    pub visible: bool,
    /// Whether the window carries platform decorations.
    pub decorations: bool,
    /// Whether the window floats above ordinary windows.
    pub always_on_top: bool,
    /// The window icon, if any.
    pub window_icon: Option<Icon>,
    /// The monitor to go fullscreen on, if any.
    pub fullscreen: Option<MonitorId>,
}

impl Default for WindowAttributes {
    /// A resizable, visible, decorated window with no requested geometry,
    /// an empty title and nothing else set.
    fn default() -> (r: WindowAttributes)
        ensures
            r.dimensions == None::<LogicalSize>,
            r.min_dimensions == None::<LogicalSize>,
            r.max_dimensions == None::<LogicalSize>,
            r.resizable == true,
            r.title@ == Seq::<char>::empty(),
            r.maximized == false,
            r.visible == true,
            r.decorations == true,
            r.always_on_top == false,
            r.window_icon is None,
            r.fullscreen == None::<MonitorId>,
    {
        WindowAttributes {
            dimensions: None,
            min_dimensions: None,
            max_dimensions: None,
            resizable: true,
            title: String::new(),
            maximized: false,
            visible: true,
            decorations: true,
            always_on_top: false,
            window_icon: None,
            fullscreen: None,
        }
    }
}

/// Backend-specific window attributes. This backend defines none.
#[derive(Debug, Clone, Default)]
pub struct PlatformSpecificWindowBuilderAttributes;

/// Backend-specific headless-context attributes. This backend defines none.
#[derive(Debug, Clone, Default)]
pub struct PlatformSpecificHeadlessBuilderAttributes;

/// Requested minimum and maximum sizes are compatible when no minimum
/// exceeds the corresponding maximum.
pub open spec fn compatible_size_bounds(min: Option<LogicalSize>, max: Option<
    LogicalSize,
>) -> bool {
    match (min, max) {
        (Some(lo), Some(hi)) => lo.width <= hi.width && lo.height <= hi.height,
        _ => true,
    }
}

/// Decides `compatible_size_bounds` on concrete attribute values.
fn size_bounds_ok(min: &Option<LogicalSize>, max: &Option<LogicalSize>) -> (r: bool)
    ensures
        r == compatible_size_bounds(*min, *max),
{
    match (min, max) {
        (Some(lo), Some(hi)) => lo.width <= hi.width && lo.height <= hi.height,
        _ => true,
    }
}

/// Why the backend refused to materialise a window. Creation is never
/// retried internally; the error always reaches the caller.
#[derive(Debug, Clone, Copy, PartialEq, Eq, Structural)]
pub enum CreationError {
    /// The backend has run out of fresh window identities.
    WindowLimitReached,
    /// The requested minimum size exceeds the requested maximum size.
    IncompatibleSizeBounds,
}

/// The presentation state of one window that contracts speak about.
#[verifier::ext_equal]
pub ghost struct WindowView {
    pub id: WindowId,
    pub title: Seq<char>,
    pub position: Option<LogicalPosition>,
    pub inner_size: Option<LogicalSize>,
    pub min_size: Option<LogicalSize>,
    pub max_size: Option<LogicalSize>,
    pub resizable: bool,
    pub visible: bool,
    pub cursor: MouseCursor,
    pub cursor_hidden: bool,
    pub maximized: bool,
    pub fullscreen: Option<MonitorId>,
    pub decorations: bool,
    pub always_on_top: bool,
    pub icon: Option<IconView>,
    pub ime_spot: Option<LogicalPosition>,
    pub scale: ScaleFactor,
}

/// A window: the owner of one surface's mutable presentation state. It is
/// constructed against a live `EventsLoop` and afterwards operates
/// independently, holding no reference back to the loop.
pub struct Window {
    id: WindowId,
    title: String,
    position: Option<LogicalPosition>,
    inner_size: Option<LogicalSize>,
    min_size: Option<LogicalSize>,
    max_size: Option<LogicalSize>,
    resizable: bool,
    visible: bool,
    cursor: MouseCursor,
    cursor_hidden: bool,
    maximized: bool,
    fullscreen: Option<MonitorId>,
    decorations: bool,
    always_on_top: bool,
    icon: Option<Icon>,
    ime_spot: Option<LogicalPosition>,
    scale: ScaleFactor,
}

impl View for Window {
    type V = WindowView;

    closed spec fn view(&self) -> WindowView {
        WindowView {
            id: self.id,
            title: self.title@,
            position: self.position,
            inner_size: self.inner_size,
            min_size: self.min_size,
            max_size: self.max_size,
            resizable: self.resizable,
            visible: self.visible,
            cursor: self.cursor,
            cursor_hidden: self.cursor_hidden,
            maximized: self.maximized,
            fullscreen: self.fullscreen,
            decorations: self.decorations,
            always_on_top: self.always_on_top,
            icon: spec_icon_view(self.icon),
            ime_spot: self.ime_spot,
            scale: self.scale,
        }
    }
}

/// Names the raw platform handle that the outside windowing interop crate
/// builds for a given numeric window identity.
pub uninterp spec fn raw_handle_of(id: u32) -> raw_window_handle::RawWindowHandle;

impl Window {
    /// A window is well formed when its identity was really issued (never
    /// the dummy sentinel) and its scale factor is strictly positive.
    pub open spec fn wf(&self) -> bool {
        &&& self@.id.value() >= 1
        &&& self@.scale.wf()
    }

    /// Creates a window against a live event loop. Succeeds exactly when
    /// the requested size bounds are compatible and the loop can still
    /// issue a fresh identity; on success the window is immediately
    /// addressable by its identity, which the loop records as live.
    pub fn new(
        events_loop: &mut EventsLoop,
        attributes: WindowAttributes,
        _platform_attributes: PlatformSpecificWindowBuilderAttributes,
    ) -> (r: Result<Window, CreationError>)
        requires
            old(events_loop).wf(),
        ensures
            final (events_loop).wf(),
            r is Ok <==> compatible_size_bounds(attributes.min_dimensions, attributes.max_dimensions)
                && old(events_loop)@.next_window < u32::MAX,
            !compatible_size_bounds(attributes.min_dimensions, attributes.max_dimensions) ==> (
            r matches Err(e) && e == CreationError::IncompatibleSizeBounds && final (
            events_loop)@ == old(events_loop)@),
            compatible_size_bounds(attributes.min_dimensions, attributes.max_dimensions) && old(
                events_loop,
            )@.next_window == u32::MAX ==> (r matches Err(e) && e
                == CreationError::WindowLimitReached && final (events_loop)@ == old(
                events_loop,
            )@),
            r matches Ok(w) ==> {
                &&& w@.id.value() == old(events_loop)@.next_window
                &&& final (events_loop)@ == (EventsLoopView {
                    next_window: (old(events_loop)@.next_window + 1) as u32,
                    live: old(events_loop)@.live.push(w@.id),
                    ..old(events_loop)@
                })
                &&& w@.title == attributes.title@
                &&& w@.position == Some(LogicalPosition { x: 0, y: 0 })
                &&& w@.inner_size == attributes.dimensions
                &&& w@.min_size == attributes.min_dimensions
                &&& w@.max_size == attributes.max_dimensions
                &&& w@.resizable == attributes.resizable
                &&& w@.visible == attributes.visible
                &&& w@.cursor == MouseCursor::Default
                &&& w@.cursor_hidden == false
                &&& w@.maximized == attributes.maximized
                &&& w@.fullscreen == attributes.fullscreen
                &&& w@.decorations == attributes.decorations
                &&& w@.always_on_top == attributes.always_on_top
                &&& w@.icon == spec_icon_view(attributes.window_icon)
                &&& w@.ime_spot == None::<LogicalPosition>
                &&& w@.scale == (ScaleFactor { thousandths: 1000 })
                &&& w.wf()
            },
    {
        if !size_bounds_ok(&attributes.min_dimensions, &attributes.max_dimensions) {
            return Err(CreationError::IncompatibleSizeBounds);
        }
        match events_loop.issue_window_id() {
            None => Err(CreationError::WindowLimitReached),
            Some(id) => {
                let w = Window {
                    id,
                    title: attributes.title,
                    position: Some(LogicalPosition { x: 0, y: 0 }),
                    inner_size: attributes.dimensions,
                    min_size: attributes.min_dimensions,
                    max_size: attributes.max_dimensions,
                    resizable: attributes.resizable,
                    visible: attributes.visible,
                    cursor: MouseCursor::Default,
                    cursor_hidden: false,
                    maximized: attributes.maximized,
                    fullscreen: attributes.fullscreen,
                    decorations: attributes.decorations,
                    always_on_top: attributes.always_on_top,
                    icon: attributes.window_icon,
                    ime_spot: None,
                    scale: ScaleFactor::identity(),
                };
                Ok(w)
            },
        }
    }

    /// The window's identity: the same value on every call, for as long as
    /// the window lives.
    pub fn id(&self) -> (r: WindowId)
        ensures
            r == self@.id,
    {
        self.id
    }

    /// Records a new title.
    pub fn set_title(&mut self, title: &str)
        ensures
            final (self)@ == (WindowView { title: title@, ..old(self)@ }),
    {
        self.title = String::from_str(title);
        proof {
            assert(self@ =~= (WindowView { title: title@, ..old(self)@ }));
        }
    }

    /// The window's outer position, as last applied.
    pub fn get_position(&self) -> (r: Option<LogicalPosition>)
        ensures
            r == self@.position,
    {
        self.position
    }

    /// The client area's position. This backend draws no decorations, so it
    /// coincides with the outer position.
    pub fn get_inner_position(&self) -> (r: Option<LogicalPosition>)
        ensures
            r == self@.position,
    {
        self.position
    }

    /// Moves the window.
    pub fn set_position(&mut self, position: LogicalPosition)
        ensures
            final (self)@ == (WindowView { position: Some(position), ..old(self)@ }),
    {
        self.position = Some(position);
        proof {
            assert(self@ =~= (WindowView { position: Some(position), ..old(self)@ }));
        }
    }

    /// The client area's size, as last applied; `None` until one was set or
    /// requested, meaning the platform reports nothing.
    pub fn get_inner_size(&self) -> (r: Option<LogicalSize>)
        ensures
            r == self@.inner_size,
    {
        self.inner_size
    }

    /// The window's outer size. This backend draws no decorations, so it
    /// coincides with the inner size.
    pub fn get_outer_size(&self) -> (r: Option<LogicalSize>)
        ensures
            r == self@.inner_size,
    {
        self.inner_size
    }

    /// Resizes the client area.
    pub fn set_inner_size(&mut self, size: LogicalSize)
        ensures
            final (self)@ == (WindowView { inner_size: Some(size), ..old(self)@ }),
    {
        self.inner_size = Some(size);
        proof {
            assert(self@ =~= (WindowView { inner_size: Some(size), ..old(self)@ }));
        }
    }

    /// Records the smallest size the window may take.
    pub fn set_min_dimensions(&mut self, dimensions: Option<LogicalSize>)
        ensures
            final (self)@ == (WindowView { min_size: dimensions, ..old(self)@ }),
    {
        self.min_size = dimensions;
        proof {
            assert(self@ =~= (WindowView { min_size: dimensions, ..old(self)@ }));
        }
    }

    /// Records the largest size the window may take.
    pub fn set_max_dimensions(&mut self, dimensions: Option<LogicalSize>)
        ensures
            final (self)@ == (WindowView { max_size: dimensions, ..old(self)@ }),
    {
        self.max_size = dimensions;
        proof {
            assert(self@ =~= (WindowView { max_size: dimensions, ..old(self)@ }));
        }
    }

    /// Records whether the user may resize the window.
    pub fn set_resizable(&mut self, resizable: bool)
        ensures
            final (self)@ == (WindowView { resizable: resizable, ..old(self)@ }),
    {
        self.resizable = resizable;
        proof {
            assert(self@ =~= (WindowView { resizable: resizable, ..old(self)@ }));
        }
    }

    /// Makes the window visible.
    pub fn show(&mut self)
        ensures
            final (self)@ == (WindowView { visible: true, ..old(self)@ }),
    {
        self.visible = true;
        proof {
            assert(self@ =~= (WindowView { visible: true, ..old(self)@ }));
        }
    }

    /// Hides the window.
    pub fn hide_window(&mut self)
        ensures
            final (self)@ == (WindowView { visible: false, ..old(self)@ }),
    {
        self.visible = false;
        proof {
            assert(self@ =~= (WindowView { visible: false, ..old(self)@ }));
        }
    }

    /// Records the cursor icon to show over the window.
    pub fn set_cursor(&mut self, cursor: MouseCursor)
        ensures
            final (self)@ == (WindowView { cursor: cursor, ..old(self)@ }),
    {
        self.cursor = cursor;
        proof {
            assert(self@ =~= (WindowView { cursor: cursor, ..old(self)@ }));
        }
    }

    /// Asks the platform to confine the cursor to the window. This backend
    /// cannot grab the cursor, so the refusal is reported for the caller to
    /// recover from; the window's state is untouched.
    pub fn grab_cursor(&self, _grab: bool) -> (r: Result<(), String>)
        ensures
            r matches Err(m) && m@ == Seq::<char>::empty(),
    {
        Err(String::new())
    }

    /// Records whether the cursor is hidden while over the window.
    pub fn hide_cursor(&mut self, hidden: bool)
        ensures
            final (self)@ == (WindowView { cursor_hidden: hidden, ..old(self)@ }),
    {
        self.cursor_hidden = hidden;
        proof {
            assert(self@ =~= (WindowView { cursor_hidden: hidden, ..old(self)@ }));
        }
    }

    /// The window's scale factor: always present, always strictly positive,
    /// `1.0` when the platform reports nothing better.
    pub fn get_hidpi_factor(&self) -> (r: ScaleFactor)
        requires
            self.wf(),
        ensures
            r == self@.scale,
            r.wf(),
    {
        self.scale
    }

    /// Asks the platform to move the cursor. This backend cannot place the
    /// cursor, so the refusal is reported for the caller to recover from.
    pub fn set_cursor_position(&self, _position: LogicalPosition) -> (r: Result<(), String>)
        ensures
            r matches Err(m) && m@ == "cursor placement is not available on this backend"@,
    {
        Err(String::from_str("cursor placement is not available on this backend"))
    }

    /// Records whether the window is maximized.
    pub fn set_maximized(&mut self, maximized: bool)
        ensures
            final (self)@ == (WindowView { maximized: maximized, ..old(self)@ }),
    {
        self.maximized = maximized;
        proof {
            assert(self@ =~= (WindowView { maximized: maximized, ..old(self)@ }));
        }
    }

    /// The monitor the window is fullscreen on, as last applied; `None`
    /// when the window is not fullscreen.
    pub fn get_fullscreen(&self) -> (r: Option<MonitorId>)
        ensures
            r == self@.fullscreen,
    {
        self.fullscreen
    }

    /// Puts the window fullscreen on the given monitor, or back to windowed
    /// mode on `None`.
    pub fn set_fullscreen(&mut self, monitor: Option<MonitorId>)
        ensures
            final (self)@ == (WindowView { fullscreen: monitor, ..old(self)@ }),
    {
        self.fullscreen = monitor;
        proof {
            assert(self@ =~= (WindowView { fullscreen: monitor, ..old(self)@ }));
        }
    }

    /// Records whether the window carries platform decorations.
    pub fn set_decorations(&mut self, decorations: bool)
        ensures
            final (self)@ == (WindowView { decorations: decorations, ..old(self)@ }),
    {
        self.decorations = decorations;
        proof {
            assert(self@ =~= (WindowView { decorations: decorations, ..old(self)@ }));
        }
    }

    /// Records whether the window floats above ordinary windows.
    pub fn set_always_on_top(&mut self, always_on_top: bool)
        ensures
            final (self)@ == (WindowView { always_on_top: always_on_top, ..old(self)@ }),
    {
        self.always_on_top = always_on_top;
        proof {
            assert(self@ =~= (WindowView { always_on_top: always_on_top, ..old(self)@ }));
        }
    }

    /// Records the window icon, or removes it on `None`.
    pub fn set_window_icon(&mut self, icon: Option<Icon>)
        ensures
            final (self)@ == (WindowView { icon: spec_icon_view(icon), ..old(self)@ }),
    {
        self.icon = icon;
        proof {
            assert(self@ =~= (WindowView { icon: spec_icon_view(icon), ..old(self)@ }));
        }
    }

    /// Records where the IME candidate window should appear.
    pub fn set_ime_spot(&mut self, logical_spot: LogicalPosition)
        ensures
            final (self)@ == (WindowView { ime_spot: Some(logical_spot), ..old(self)@ }),
    {
        self.ime_spot = Some(logical_spot);
        proof {
            assert(self@ =~= (WindowView { ime_spot: Some(logical_spot), ..old(self)@ }));
        }
    }

    /// The monitor the window currently occupies: on this single-surface
    /// backend, always the primary one.
    pub fn get_current_monitor(&self) -> (r: MonitorId)
        ensures
            r == spec_primary_monitor(),
    {
        MonitorId
    }

    /// Enumerates the available display surfaces: at least one, always.
    pub fn get_available_monitors(&self) -> (r: VecDeque<MonitorId>)
        ensures
            r@ == spec_monitors(),
            r@.len() >= 1,
    {
        available_monitors()
    }

    /// The primary display surface: the first enumerated one.
    pub fn get_primary_monitor(&self) -> (r: MonitorId)
        ensures
            r == spec_primary_monitor(),
    {
        MonitorId
    }

    /// The native handle for graphics interop. Relies on
    /// `raw_window_handle::WebWindowHandle::new` (wrapped in
    /// `RawWindowHandle::Web`): the handle stores exactly the numeric id it
    /// is given, so it identifies the same live window as `self.id()`.
    /// Nothing is promised of the handle once the window is gone.
    #[verifier::external_body]
    pub fn raw_window_handle(&self) -> (r: raw_window_handle::RawWindowHandle)
        ensures
            r == raw_handle_of(self@.id.value()),
    {
        raw_window_handle::RawWindowHandle::Web(raw_window_handle::WebWindowHandle::new(self.id_value()))
    }

    /// The numeric value behind the window's identity, for the platform
    /// layer's interop.
    fn id_value(&self) -> (r: u32)
        ensures
            r == self@.id.value(),
    {
        crate::identity::window_id_value(&self.id)
    }
}

/// Law: a round trip through the size setter is lossless on this backend:
/// the state `set_inner_size(s)` leaves behind is exactly the state on
/// which `get_inner_size` answers `Some(s)`.
pub proof fn lemma_inner_size_round_trip(pre: WindowView, s: LogicalSize)
    ensures
        (WindowView { inner_size: Some(s), ..pre }).inner_size == Some(s),
{
}

/// Law: a well-formed window's scale factor is strictly positive — never
/// zero, negative, or anything but a plain positive ratio.
pub proof fn lemma_hidpi_factor_positive(w: &Window)
    requires
        w.wf(),
    ensures
        w@.scale.thousandths >= 1,
{
}

} // verus!
