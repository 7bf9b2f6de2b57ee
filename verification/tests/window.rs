use dpi::{PhysicalPosition, PhysicalSize, Position, Size};
use emscripten_window::{
    Cursor, CursorGrabMode, Event, ExternalError, Fullscreen, Icon, ImePurpose, NotSupportedError,
    PlatformSpecificWindowAttributes, PlatformSpecificWindowBuilderAttributes, ResizeDirection,
    Theme, UserAttentionType, Window, WindowButtons, WindowEvent, WindowId, WindowLevel,
};
use raw_window_handle::{HandleError, RawDisplayHandle};

fn position() -> Position {
    Position::Physical(PhysicalPosition::new(3, 4))
}

fn size() -> Size {
    Size::Physical(PhysicalSize::new(640, 480))
}

fn is_not_supported(r: Result<(), ExternalError>) -> bool {
    matches!(r, Err(ExternalError::NotSupported(NotSupportedError)))
}

#[test]
fn dummy_id_is_zero() {
    assert_eq!(WindowId::dummy(), WindowId(0));
}

#[test]
fn id_converts_to_u64() {
    let x: u64 = WindowId(42).into();
    assert_eq!(x, 42);
}

#[test]
fn u64_converts_to_id() {
    let id: WindowId = 7u64.into();
    assert_eq!(id, WindowId(7));
}

#[test]
fn id_round_trips_through_u64() {
    let id = WindowId(123_456);
    let x: u64 = id.into();
    let back: WindowId = x.into();
    assert_eq!(back, id);
}

#[test]
fn u64_round_trips_through_id() {
    let x: u64 = 99_000;
    let id: WindowId = x.into();
    let back: u64 = id.into();
    assert_eq!(back, x);
}

#[test]
fn new_window_has_dummy_id() {
    let w = Window::new();
    assert_eq!(w.maybe_wait_on_main(|inner| inner.id()), WindowId::dummy());
}

#[test]
fn wait_on_main_returns_closure_result() {
    let w = Window::new();
    assert_eq!(w.maybe_wait_on_main(|inner| inner.is_maximized()), false);
    assert_eq!(w.maybe_wait_on_main(|_| 17u32), 17);
}

#[test]
fn queue_on_main_runs_closure() {
    let w = Window::new();
    w.maybe_queue_on_main(|inner| {
        inner.set_title("title");
        assert_eq!(inner.id(), WindowId(0));
    });
}

#[test]
fn prevent_default_is_off_and_stays_off() {
    let w = Window::new();
    assert!(!w.prevent_default());
    w.set_prevent_default(true);
    assert!(!w.prevent_default());
}

#[test]
fn raw_window_handle_is_unavailable() {
    let w = Window::new();
    assert!(matches!(w.raw_window_handle_rwh_06(), Err(HandleError::Unavailable)));
}

#[test]
fn raw_display_handle_is_web() {
    let w = Window::new();
    assert!(matches!(w.raw_display_handle_rwh_06(), Ok(RawDisplayHandle::Web(_))));
}

#[test]
fn platform_attributes_default_to_off() {
    let a = PlatformSpecificWindowAttributes::default();
    assert!(!a.prevent_default);
    assert!(!a.focusable);
    assert!(!a.append);
    let _b = PlatformSpecificWindowBuilderAttributes::default().clone();
}

#[test]
fn request_redraw_names_the_window() {
    let w = Window::new();
    let e = w.maybe_wait_on_main(|inner| inner.request_redraw());
    assert_eq!(e, Event::WindowEvent { window_id: WindowId(0), event: WindowEvent::RedrawRequested });
}

#[test]
fn positions_are_not_supported() {
    let w = Window::new();
    w.maybe_wait_on_main(|inner| {
        assert_eq!(inner.outer_position(), Err(NotSupportedError::new()));
        assert_eq!(inner.inner_position(), Err(NotSupportedError::new()));
        assert_eq!(inner.inner_position(), inner.outer_position());
        assert_eq!(inner.pointer_position(), None);
        inner.set_outer_position(position());
    });
}

#[test]
fn sizes_have_fixed_answers() {
    let w = Window::new();
    w.maybe_wait_on_main(|inner| {
        assert_eq!(inner.request_inner_size(size()), None);
        assert_eq!(inner.resize_increments(), None);
        inner.set_min_inner_size(Some(size()));
        inner.set_max_inner_size(None);
        inner.set_resize_increments(Some(size()));
        inner.set_resizable(false);
        assert!(inner.is_resizable());
    });
}

#[test]
fn all_buttons_are_enabled() {
    let w = Window::new();
    w.maybe_wait_on_main(|inner| {
        inner.set_enabled_buttons(WindowButtons::all());
        assert_eq!(inner.enabled_buttons(), WindowButtons::all());
        assert_eq!(inner.enabled_buttons().bits(), 7);
    });
}

#[test]
fn cursor_requests_are_not_supported() {
    let w = Window::new();
    w.maybe_wait_on_main(|inner| {
        inner.set_cursor(Cursor::Icon(String::from("pointer")));
        inner.set_cursor(Cursor::Custom(3));
        inner.set_cursor_visible(false);
        assert!(is_not_supported(inner.set_cursor_position(position())));
        assert!(is_not_supported(inner.set_cursor_grab(CursorGrabMode::Locked)));
        assert!(is_not_supported(inner.set_cursor_grab(CursorGrabMode::Free)));
        assert!(is_not_supported(inner.set_cursor_hittest(true)));
    });
}

#[test]
fn dragging_is_not_supported() {
    let w = Window::new();
    w.maybe_wait_on_main(|inner| {
        assert!(is_not_supported(inner.drag_window()));
        assert!(is_not_supported(inner.drag_resize_window(ResizeDirection::SouthEast)));
        inner.show_window_menu(position());
    });
}

#[test]
fn window_state_queries_have_fixed_answers() {
    let w = Window::new();
    w.maybe_wait_on_main(|inner| {
        inner.set_visible(false);
        assert_eq!(inner.is_visible(), None);
        inner.set_minimized(true);
        assert_eq!(inner.is_minimized(), Some(false));
        inner.set_maximized(true);
        assert!(!inner.is_maximized());
        inner.set_fullscreen(Some(Fullscreen::Borderless(None)));
        assert!(inner.fullscreen().is_none());
        inner.set_decorations(false);
        assert!(inner.is_decorated());
        inner.set_window_level(WindowLevel::AlwaysOnTop);
        inner.set_window_icon(Some(Icon { rgba: vec![0, 0, 0, 255], width: 1, height: 1 }));
        inner.set_transparent(true);
        inner.set_blur(true);
        inner.pre_present_notify();
        inner.set_content_protected(true);
        assert!(inner.has_focus());
        inner.focus_window();
        inner.request_user_attention(Some(UserAttentionType::Critical));
        inner.reset_dead_keys();
    });
}

#[test]
fn theme_and_title_have_fixed_answers() {
    let w = Window::new();
    w.maybe_wait_on_main(|inner| {
        inner.set_theme(Some(Theme::Dark));
        assert_eq!(inner.theme(), None);
        inner.set_title("hello");
        assert_eq!(inner.title(), String::new());
    });
}

#[test]
fn no_monitors_are_known() {
    let w = Window::new();
    w.maybe_wait_on_main(|inner| {
        assert!(inner.current_monitor().is_none());
        assert!(inner.primary_monitor().is_none());
        assert_eq!(inner.available_monitors().len(), 0);
    });
}

#[test]
fn ime_settings_are_accepted() {
    let w = Window::new();
    w.maybe_wait_on_main(|inner| {
        inner.set_ime_purpose(ImePurpose::Password);
        inner.commit_ime();
    });
}

#[test]
fn callback_registration_codes() {
    assert!(Window::callback_registered(0));
    assert!(Window::callback_registered(1));
    assert!(!Window::callback_registered(-1));
    assert!(!Window::callback_registered(-6));
    assert!(!Window::callback_registered(2));
}
