use emscripten_window::{ime_allowed_script, ime_cursor_script};

#[test]
fn cursor_script_small_numbers() {
    assert_eq!(ime_cursor_script(1, 2, 3, 4), "Module.winit.setImeCursor(1, 2, 3, 4)");
}

#[test]
fn cursor_script_zero_and_negative() {
    assert_eq!(ime_cursor_script(0, -7, 10, -100), "Module.winit.setImeCursor(0, -7, 10, -100)");
}

#[test]
fn cursor_script_extremes() {
    assert_eq!(
        ime_cursor_script(i32::MIN, i32::MAX, 1000000, -1),
        "Module.winit.setImeCursor(-2147483648, 2147483647, 1000000, -1)"
    );
}

#[test]
fn cursor_script_matches_display() {
    for (x, y, w, h) in [(5, 50, 500, 5000), (-9, 19, -99, 1009), (123456789, -98765, 42, 7)] {
        assert_eq!(
            ime_cursor_script(x, y, w, h),
            format!("Module.winit.setImeCursor({}, {}, {}, {})", x, y, w, h)
        );
    }
}

#[test]
fn cursor_script_has_no_nul() {
    assert!(!ime_cursor_script(i32::MIN, 0, -1, 9).contains('\0'));
}

#[test]
fn allowed_script_true() {
    assert_eq!(ime_allowed_script(true), "Module.winit.allowIme(true)");
}

#[test]
fn allowed_script_false() {
    assert_eq!(ime_allowed_script(false), "Module.winit.allowIme(false)");
}
