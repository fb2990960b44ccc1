//! Behavioural tests of the event loop, the proxy, the window controller
//! and the monitor directory.

use std::cell::Cell;
use std::cell::RefCell;
use winit::dpi::LogicalPosition;
use winit::dpi::LogicalSize;
use winit::ControlFlow;
use winit::CreationError;
use winit::Event;
use winit::EventsLoop;
use winit::EventsLoopClosed;
use winit::MonitorId;
use winit::MouseCursor;
use winit::PlatformSpecificWindowBuilderAttributes;
use winit::Window;
use winit::WindowAttributes;
use winit::WindowId;

fn make_window(events_loop: &mut EventsLoop) -> Window {
    Window::new(
        events_loop,
        WindowAttributes::default(),
        PlatformSpecificWindowBuilderAttributes::default(),
    )
    .unwrap()
}

#[test]
fn window_ids_are_stable_and_unique() {
    let mut events_loop = EventsLoop::new();
    let first = make_window(&mut events_loop);
    let second = make_window(&mut events_loop);
    assert_eq!(first.id(), first.id());
    assert_eq!(second.id(), second.id());
    assert_ne!(first.id(), second.id());
    assert_ne!(first.id(), WindowId::dummy());
    assert_ne!(second.id(), WindowId::dummy());
}

#[test]
fn poll_with_nothing_queued_invokes_nothing() {
    let mut events_loop = EventsLoop::new();
    let calls = Cell::new(0u32);
    events_loop.poll_events(|_event| {
        calls.set(calls.get() + 1);
    });
    assert_eq!(calls.get(), 0);
}

#[test]
fn poll_dispatches_queued_events_in_fifo_order() {
    let mut events_loop = EventsLoop::new();
    let id = WindowId::dummy();
    events_loop.enqueue_event(Event::CloseRequested(id));
    events_loop.enqueue_event(Event::Focused(id, true));
    events_loop.enqueue_event(Event::RedrawRequested(id));
    let seen: RefCell<Vec<Event>> = RefCell::new(Vec::new());
    events_loop.poll_events(|event| {
        seen.borrow_mut().push(event);
    });
    assert_eq!(
        *seen.borrow(),
        vec![
            Event::CloseRequested(id),
            Event::Focused(id, true),
            Event::RedrawRequested(id),
        ]
    );
    let calls = Cell::new(0u32);
    events_loop.poll_events(|_event| {
        calls.set(calls.get() + 1);
    });
    assert_eq!(calls.get(), 0, "no event may be dispatched twice");
}

#[test]
fn run_forever_returns_at_once_after_interrupt() {
    let mut events_loop = EventsLoop::new();
    let id = WindowId::dummy();
    events_loop.enqueue_event(Event::RedrawRequested(id));
    events_loop.interrupt();
    let calls = Cell::new(0u32);
    events_loop.run_forever(|_event| {
        calls.set(calls.get() + 1);
        ControlFlow::Continue
    });
    assert_eq!(calls.get(), 0, "an interrupted loop dispatches nothing");
    let drained = Cell::new(0u32);
    events_loop.poll_events(|_event| {
        drained.set(drained.get() + 1);
    });
    assert_eq!(drained.get(), 1, "the undispatched event stays queued");
}

#[test]
fn run_forever_stops_on_break_and_keeps_the_rest_queued() {
    let mut events_loop = EventsLoop::new();
    let id = WindowId::dummy();
    events_loop.enqueue_event(Event::CloseRequested(id));
    events_loop.enqueue_event(Event::Focused(id, false));
    events_loop.enqueue_event(Event::RedrawRequested(id));
    let calls = Cell::new(0u32);
    events_loop.run_forever(|_event| {
        calls.set(calls.get() + 1);
        ControlFlow::Break
    });
    assert_eq!(calls.get(), 1);
    let seen: RefCell<Vec<Event>> = RefCell::new(Vec::new());
    events_loop.poll_events(|event| {
        seen.borrow_mut().push(event);
    });
    assert_eq!(
        *seen.borrow(),
        vec![Event::Focused(id, false), Event::RedrawRequested(id)]
    );
}

#[test]
fn run_forever_drains_the_queue_when_never_broken() {
    let mut events_loop = EventsLoop::new();
    let id = WindowId::dummy();
    events_loop.enqueue_event(Event::CloseRequested(id));
    events_loop.enqueue_event(Event::RedrawRequested(id));
    let calls = Cell::new(0u32);
    events_loop.run_forever(|_event| {
        calls.set(calls.get() + 1);
        ControlFlow::Continue
    });
    assert_eq!(calls.get(), 2);
}

#[test]
fn wakeup_on_a_live_loop_succeeds_and_coalesces_into_one_awakened() {
    let mut events_loop = EventsLoop::new();
    let proxy = events_loop.create_proxy();
    assert_eq!(proxy.wakeup(), Ok(()));
    assert_eq!(proxy.clone().wakeup(), Ok(()));
    let awakened = Cell::new(0u32);
    let calls = Cell::new(0u32);
    events_loop.poll_events(|event| {
        calls.set(calls.get() + 1);
        if event == Event::Awakened {
            awakened.set(awakened.get() + 1);
        }
    });
    assert_eq!(awakened.get(), 1, "two rapid wakes coalesce into one");
    assert_eq!(calls.get(), 1);
    let later = Cell::new(0u32);
    events_loop.poll_events(|_event| {
        later.set(later.get() + 1);
    });
    assert_eq!(later.get(), 0, "a wake is never dispatched twice");
}

#[test]
fn wakeup_after_the_loop_is_gone_reports_closed() {
    let events_loop = EventsLoop::new();
    let proxy = events_loop.create_proxy();
    drop(events_loop);
    assert_eq!(proxy.wakeup(), Err(EventsLoopClosed));
    assert_eq!(proxy.wakeup(), Err(EventsLoopClosed));
}

#[test]
fn monitors_enumerate_non_empty_and_primary_is_first() {
    let events_loop = EventsLoop::new();
    let monitors = events_loop.get_available_monitors();
    assert!(monitors.len() >= 1);
    assert_eq!(monitors.front(), Some(&events_loop.get_primary_monitor()));
    let mut el = EventsLoop::new();
    let window = make_window(&mut el);
    assert_eq!(window.get_available_monitors().len(), 1);
    assert_eq!(window.get_primary_monitor(), MonitorId);
    assert_eq!(window.get_current_monitor(), MonitorId);
}

#[test]
fn monitor_reports_name_dimensions_and_scale() {
    let monitor = MonitorId;
    assert_eq!(monitor.get_name(), Some(String::from("window")));
    let size = monitor.get_dimensions();
    assert_eq!((size.width, size.height), (0, 0));
    let factor = monitor.get_hidpi_factor();
    assert_eq!(factor.thousandths, 1000);
    assert!(factor.thousandths > 0);
}

#[test]
fn window_hidpi_factor_is_finite_and_positive() {
    let mut events_loop = EventsLoop::new();
    let window = make_window(&mut events_loop);
    let factor = window.get_hidpi_factor();
    assert_eq!(factor.thousandths, 1000);
    assert!(factor.thousandths > 0);
}

#[test]
fn set_inner_size_round_trips_through_get_inner_size() {
    let mut events_loop = EventsLoop::new();
    let mut window = make_window(&mut events_loop);
    assert_eq!(window.get_inner_size(), None);
    let size = LogicalSize { width: 800, height: 600 };
    window.set_inner_size(size);
    assert_eq!(window.get_inner_size(), Some(size));
    assert_eq!(window.get_outer_size(), Some(size));
}

#[test]
fn setters_record_the_last_applied_value() {
    let mut events_loop = EventsLoop::new();
    let mut window = make_window(&mut events_loop);
    let position = LogicalPosition { x: 24, y: -8 };
    window.set_position(position);
    assert_eq!(window.get_position(), Some(position));
    assert_eq!(window.get_inner_position(), Some(position));
    assert_eq!(window.get_fullscreen(), None);
    window.set_fullscreen(Some(MonitorId));
    assert_eq!(window.get_fullscreen(), Some(MonitorId));
    window.set_fullscreen(None);
    assert_eq!(window.get_fullscreen(), None);
    window.set_title("a window");
    window.set_resizable(false);
    window.set_maximized(true);
    window.set_decorations(false);
    window.set_always_on_top(true);
    window.set_cursor(MouseCursor::Hand);
    window.hide_cursor(true);
    window.set_min_dimensions(Some(LogicalSize { width: 1, height: 1 }));
    window.set_max_dimensions(None);
    window.set_ime_spot(LogicalPosition { x: 3, y: 4 });
    window.show();
    window.hide_window();
}

#[test]
fn window_new_applies_the_requested_attributes() {
    let mut events_loop = EventsLoop::new();
    let mut attributes = WindowAttributes::default();
    attributes.dimensions = Some(LogicalSize { width: 640, height: 480 });
    attributes.title = String::from("main");
    let window = Window::new(
        &mut events_loop,
        attributes,
        PlatformSpecificWindowBuilderAttributes::default(),
    )
    .unwrap();
    assert_eq!(
        window.get_inner_size(),
        Some(LogicalSize { width: 640, height: 480 })
    );
    assert_eq!(window.get_position(), Some(LogicalPosition { x: 0, y: 0 }));
    assert_eq!(window.get_fullscreen(), None);
    assert_ne!(window.id(), WindowId::dummy());
}

#[test]
fn window_new_rejects_incompatible_size_bounds() {
    let mut events_loop = EventsLoop::new();
    let mut attributes = WindowAttributes::default();
    attributes.min_dimensions = Some(LogicalSize { width: 800, height: 600 });
    attributes.max_dimensions = Some(LogicalSize { width: 400, height: 300 });
    let refused = Window::new(
        &mut events_loop,
        attributes,
        PlatformSpecificWindowBuilderAttributes::default(),
    );
    assert!(matches!(refused, Err(CreationError::IncompatibleSizeBounds)));
    let window = make_window(&mut events_loop);
    assert_ne!(window.id(), WindowId::dummy());
}

#[test]
fn cursor_control_reports_catchable_refusals() {
    let mut events_loop = EventsLoop::new();
    let window = make_window(&mut events_loop);
    assert_eq!(window.grab_cursor(true), Err(String::new()));
    assert_eq!(window.grab_cursor(false), Err(String::new()));
    assert_eq!(
        window.set_cursor_position(LogicalPosition { x: 10, y: 10 }),
        Err(String::from("cursor placement is not available on this backend"))
    );
}

#[test]
fn attributes_default_is_a_plain_visible_window() {
    let attributes = WindowAttributes::default();
    assert_eq!(attributes.dimensions, None);
    assert_eq!(attributes.min_dimensions, None);
    assert_eq!(attributes.max_dimensions, None);
    assert!(attributes.resizable);
    assert_eq!(attributes.title, String::new());
    assert!(!attributes.maximized);
    assert!(attributes.visible);
    assert!(attributes.decorations);
    assert!(!attributes.always_on_top);
    assert!(attributes.window_icon.is_none());
    assert_eq!(attributes.fullscreen, None);
    assert_eq!(MouseCursor::default(), MouseCursor::Default);
}
