use frame_core::window::AspectRatio;
use frame_core::window::CursorPosition;
use frame_core::window::Event;
use frame_core::window::PhysicalSize;
use frame_core::window::WindowBinding;
use frame_core::window::WindowEvent;
use frame_core::window::WindowState;

fn window(window_id: u64, event: WindowEvent) -> Event {
    Event::Window { window_id, event }
}

#[test]
fn new_binds_identity_and_derives_aspect() {
    let s = WindowState::new(PhysicalSize { width: 800, height: 600 }, 77, 5);
    assert_eq!(s.size, PhysicalSize { width: 800, height: 600 });
    assert_eq!(s.aspect, AspectRatio { numer: 800, denom: 600 });
    assert_eq!(s.scale_bits, 77);
    assert_eq!(s.binding, WindowBinding::Bound(5));
    assert!(!s.focused);
    assert!(!s.should_close);
    assert!(!s.cursor_in);
    assert_eq!(s.cursor_pos, CursorPosition { x_bits: 0, y_bits: 0 });
}

#[test]
fn default_is_the_zero_snapshot() {
    let s = WindowState::default();
    assert_eq!(s.size, PhysicalSize { width: 0, height: 0 });
    assert_eq!(s.aspect, AspectRatio { numer: 0, denom: 1 });
    assert_eq!(s.binding, WindowBinding::Unbound);
    assert!(!s.focused && !s.should_close && !s.cursor_in);
}

#[test]
fn first_window_event_binds_and_applies() {
    let mut s = WindowState::default();
    s.event(&window(3, WindowEvent::CursorEntered));
    assert_eq!(s.binding, WindowBinding::Bound(3));
    assert!(s.cursor_in);
}

#[test]
fn resize_then_foreign_event_scenario() {
    let mut s = WindowState::default();
    s.event(&window(
        1,
        WindowEvent::Resized(PhysicalSize { width: 1920, height: 1080 }),
    ));
    assert_eq!(s.binding, WindowBinding::Bound(1));
    assert_eq!(s.size, PhysicalSize { width: 1920, height: 1080 });
    assert_eq!(s.aspect, AspectRatio { numer: 1920, denom: 1080 });
    assert_eq!(
        s.aspect.numer as f32 / s.aspect.denom as f32,
        1920.0f32 / 1080.0f32
    );

    let before = s.clone();
    s.event(&window(
        2,
        WindowEvent::CursorMoved(CursorPosition { x_bits: 1, y_bits: 2 }),
    ));
    assert_eq!(s, before);
}

#[test]
fn bound_tracker_ignores_other_windows() {
    let mut s = WindowState::new(PhysicalSize { width: 10, height: 10 }, 0, 5);
    let before = s.clone();
    s.event(&window(6, WindowEvent::CloseRequested));
    s.event(&window(6, WindowEvent::Focused(true)));
    s.event(&window(
        6,
        WindowEvent::Resized(PhysicalSize { width: 1, height: 1 }),
    ));
    assert_eq!(s, before);

    s.event(&window(5, WindowEvent::Focused(true)));
    assert!(s.focused);
}

#[test]
fn close_request_is_sticky() {
    let mut s = WindowState::new(PhysicalSize { width: 10, height: 10 }, 0, 5);
    assert!(!s.should_close);
    s.event(&window(5, WindowEvent::CloseRequested));
    assert!(s.should_close);
    s.event(&window(5, WindowEvent::Focused(false)));
    s.event(&window(
        5,
        WindowEvent::Resized(PhysicalSize { width: 3, height: 4 }),
    ));
    s.event(&window(5, WindowEvent::CursorLeft));
    s.event(&window(5, WindowEvent::Other));
    s.event(&Event::Other);
    assert!(s.should_close);
}

#[test]
fn aspect_is_exact_and_zero_height_is_zero() {
    let mut s = WindowState::new(PhysicalSize { width: 1, height: 1 }, 0, 5);
    s.event(&window(
        5,
        WindowEvent::Resized(PhysicalSize { width: 800, height: 600 }),
    ));
    assert_eq!(s.aspect, AspectRatio { numer: 800, denom: 600 });
    assert_eq!(
        s.aspect.numer as f32 / s.aspect.denom as f32,
        800.0f32 / 600.0f32
    );

    s.event(&window(
        5,
        WindowEvent::Resized(PhysicalSize { width: 123, height: 0 }),
    ));
    assert_eq!(s.aspect, AspectRatio { numer: 0, denom: 1 });
    assert_eq!(s.aspect.numer as f32 / s.aspect.denom as f32, 0.0f32);
}

#[test]
fn cursor_events_track_entry_position_and_exit() {
    let mut s = WindowState::new(PhysicalSize { width: 10, height: 10 }, 0, 5);
    s.event(&window(5, WindowEvent::CursorEntered));
    assert!(s.cursor_in);

    let pos = CursorPosition {
        x_bits: 3.5f64.to_bits(),
        y_bits: 7.25f64.to_bits(),
    };
    s.event(&window(5, WindowEvent::CursorMoved(pos)));
    assert_eq!(s.cursor_pos, pos);
    assert_eq!(f64::from_bits(s.cursor_pos.x_bits), 3.5);
    assert_eq!(f64::from_bits(s.cursor_pos.y_bits), 7.25);

    s.event(&window(5, WindowEvent::CursorLeft));
    assert!(!s.cursor_in);
    assert_eq!(s.cursor_pos, pos);
}

#[test]
fn focus_follows_the_latest_flag() {
    let mut s = WindowState::new(PhysicalSize { width: 10, height: 10 }, 0, 5);
    s.event(&window(5, WindowEvent::Focused(true)));
    assert!(s.focused);
    s.event(&window(5, WindowEvent::Focused(false)));
    assert!(!s.focused);
}

#[test]
fn non_window_events_never_bind_or_change_anything() {
    let mut s = WindowState::default();
    let before = s.clone();
    s.event(&Event::Other);
    assert_eq!(s, before);
    assert_eq!(s.binding, WindowBinding::Unbound);
}

#[test]
fn unknown_window_event_kinds_bind_but_change_nothing_else() {
    let mut s = WindowState::default();
    s.event(&window(9, WindowEvent::Other));
    assert_eq!(s.binding, WindowBinding::Bound(9));
    let mut expected = WindowState::default();
    expected.binding = WindowBinding::Bound(9);
    assert_eq!(s, expected);
}
