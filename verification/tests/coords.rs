//! Tests of the coordinate model, icon validation, and the raw-handle
//! export.

use raw_window_handle::RawWindowHandle;
use winit::dpi::scale_coord;
use winit::dpi::scale_len;
use winit::dpi::unscale_coord;
use winit::dpi::unscale_len;
use winit::dpi::LogicalPosition;
use winit::dpi::LogicalSize;
use winit::dpi::PhysicalPosition;
use winit::dpi::PhysicalSize;
use winit::dpi::ScaleFactor;
use winit::BadIcon;
use winit::EventsLoop;
use winit::Icon;
use winit::PlatformSpecificWindowBuilderAttributes;
use winit::Window;
use winit::WindowAttributes;

#[test]
fn unit_scale_changes_nothing() {
    let one = ScaleFactor::identity();
    assert_eq!(one.thousandths, 1000);
    assert_eq!(scale_len(640, one), 640);
    assert_eq!(unscale_len(640, one), 640);
    assert_eq!(scale_coord(-37, one), -37);
    assert_eq!(unscale_coord(-37, one), -37);
    let size = LogicalSize { width: 800, height: 600 };
    assert_eq!(
        size.to_physical(one),
        PhysicalSize { width: 800, height: 600 }
    );
}

#[test]
fn one_and_a_half_scale_has_exact_values() {
    let factor = ScaleFactor { thousandths: 1500 };
    assert_eq!(scale_len(800, factor), 1200);
    assert_eq!(scale_len(1, factor), 2, "1.5 rounds to nearest");
    assert_eq!(unscale_len(1200, factor), 800);
    let size = LogicalSize { width: 800, height: 600 };
    let physical = size.to_physical(factor);
    assert_eq!(physical, PhysicalSize { width: 1200, height: 900 });
    assert_eq!(physical.to_logical(factor), size);
    let position = LogicalPosition { x: -100, y: 51 };
    let physical_position = position.to_physical(factor);
    assert_eq!(physical_position, PhysicalPosition { x: -150, y: 77 });
    assert_eq!(
        physical_position.to_logical(factor),
        LogicalPosition { x: -100, y: 51 }
    );
}

#[test]
fn icon_accepts_exactly_four_bytes_per_pixel() {
    let good = Icon::from_rgba(vec![0u8; 16], 2, 2).unwrap();
    assert_eq!(good.width(), 2);
    assert_eq!(good.height(), 2);
    let empty = Icon::from_rgba(Vec::new(), 0, 0).unwrap();
    assert_eq!(empty.width(), 0);
    assert!(matches!(Icon::from_rgba(vec![0u8; 15], 2, 2), Err(BadIcon)));
    assert!(matches!(Icon::from_rgba(vec![0u8; 16], 2, 3), Err(BadIcon)));
}

#[test]
fn raw_handle_identifies_the_window() {
    let mut events_loop = EventsLoop::new();
    let first = Window::new(
        &mut events_loop,
        WindowAttributes::default(),
        PlatformSpecificWindowBuilderAttributes::default(),
    )
    .unwrap();
    let second = Window::new(
        &mut events_loop,
        WindowAttributes::default(),
        PlatformSpecificWindowBuilderAttributes::default(),
    )
    .unwrap();
    let handle = first.raw_window_handle();
    assert!(matches!(handle, RawWindowHandle::Web(_)));
    assert_eq!(handle, first.raw_window_handle(), "the handle is stable");
    assert_ne!(
        handle,
        second.raw_window_handle(),
        "distinct windows export distinct handles"
    );
}
