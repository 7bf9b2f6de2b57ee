//! The window: a canvas that fills the page body. Most of what a desktop window can do has no
//! meaning for it, so most requests are accepted and ignored, and most queries have fixed answers.

use vstd::prelude::*;
use crate::error::{ExternalError, NotSupportedError};
use crate::event::{Event, WindowEvent};
use crate::monitor::{Fullscreen, MonitorHandle};
use crate::options::{
    Cursor, CursorGrabMode, Icon, ImePurpose, ResizeDirection, Theme, UserAttentionType,
    WindowButtons, WindowLevel,
};
use crate::outside::{handle_unavailable, web_display_handle};
use crate::window_id::WindowId;
use dpi::{PhysicalPosition, PhysicalSize, Position, Size};
use raw_window_handle::{HandleError, RawDisplayHandle, RawWindowHandle};
use std::collections::VecDeque;

verus! {

/// Settings of this backend that an application may give when it builds a window.
#[derive(Clone, Debug)]
pub struct PlatformSpecificWindowAttributes {
    pub prevent_default: bool,
    pub focusable: bool,
    pub append: bool,
}

impl Default for PlatformSpecificWindowAttributes {
    /// None of the settings is on.
    fn default() -> (a: Self)
        ensures
            !a.prevent_default,
            !a.focusable,
            !a.append,
    {
        PlatformSpecificWindowAttributes { prevent_default: false, focusable: false, append: false }
    }
}

/// Settings of this backend for the window builder. There are none.
#[derive(Clone)]
pub struct PlatformSpecificWindowBuilderAttributes;

impl Default for PlatformSpecificWindowBuilderAttributes {
    fn default() -> (a: Self)
        ensures
            a == PlatformSpecificWindowBuilderAttributes,
    {
        PlatformSpecificWindowBuilderAttributes
    }
}

/// The state of the window that its operations reach: its id.
pub struct Inner {
    id: WindowId,
}

/// A window of this backend.
pub struct Window {
    inner: Inner,
}

impl View for Inner {
    type V = WindowId;

    closed spec fn view(&self) -> WindowId {
        self.id
    }
}

impl View for Window {
    type V = WindowId;

    closed spec fn view(&self) -> WindowId {
        self.inner@
    }
}

impl Window {
    /// The window of this backend, with the id `WindowId::dummy()`. Hooking it to the page
    /// (event callbacks, the first size) is the caller's part.
    pub fn new() -> (w: Window)
        ensures
            w@ == WindowId(0),
    {
        Window { inner: Inner { id: WindowId::dummy() } }
    }

    /// Whether a call that hooks one of the window's callbacks to the page succeeded: emscripten
    /// answers `EMSCRIPTEN_RESULT_SUCCESS` (0) or `EMSCRIPTEN_RESULT_DEFERRED` (1) then, and a
    /// negative code otherwise. Building the window fails on any other answer.
    pub fn callback_registered(code: i32) -> (ok: bool)
        ensures
            ok == (code == 0 || code == 1),
    {
        code == 0 || code == 1
    }

    /// The state that the window's operations reach, as the closures of `maybe_queue_on_main`
    /// and `maybe_wait_on_main` see it.
    pub closed spec fn spec_inner(&self) -> &Inner {
        &self.inner
    }

    /// Runs `f` on the window's state, at once: a page has a single thread.
    pub fn maybe_queue_on_main(&self, f: impl FnOnce(&Inner) + Send + 'static)
        requires
            call_requires(f, (self.spec_inner(),)),
        ensures
            call_ensures(f, (self.spec_inner(),), ()),
    {
        f(&self.inner);
    }

    /// Runs `f` on the window's state, at once, and returns what it returns.
    pub fn maybe_wait_on_main<R: Send>(&self, f: impl FnOnce(&Inner) -> R + Send) -> (r: R)
        requires
            call_requires(f, (self.spec_inner(),)),
        ensures
            call_ensures(f, (self.spec_inner(),), r),
    {
        f(&self.inner)
    }

    /// Whether the window keeps the browser's default handling of its events from running.
    /// It does not.
    pub fn prevent_default(&self) -> (b: bool)
        ensures
            !b,
    {
        false
    }

    /// Asks the window to keep (or not) the browser's default handling of its events from
    /// running. This backend ignores the request.
    pub fn set_prevent_default(&self, _prevent_default: bool) {
    }

    /// The raw window handle: a page gives none.
    pub fn raw_window_handle_rwh_06(&self) -> (r: Result<RawWindowHandle, HandleError>)
        ensures
            r is Err,
    {
        Err(handle_unavailable())
    }

    /// The raw display handle: the (empty) handle of a web page.
    pub fn raw_display_handle_rwh_06(&self) -> (r: Result<RawDisplayHandle, HandleError>)
        ensures
            r is Ok,
    {
        Ok(web_display_handle())
    }
}


impl Inner {
    /// Sets the window's title. A canvas has no title bar: ignored.
    pub fn set_title(&self, _title: &str) {
    }

    /// Makes the window transparent or opaque. Ignored.
    pub fn set_transparent(&self, _transparent: bool) {
    }

    /// Blurs what is behind the window, or stops. Ignored.
    pub fn set_blur(&self, _blur: bool) {
    }

    /// Shows or hides the window. Ignored: the canvas stays in the page.
    pub fn set_visible(&self, _visible: bool) {
    }

    /// Whether the window is visible: not known.
    pub fn is_visible(&self) -> (r: Option<bool>)
        ensures
            r is None,
    {
        None
    }

    /// The event by which the window asks to be drawn again; it names this window. Handing it
    /// to the application's event queue is the caller's part.
    pub fn request_redraw(&self) -> (e: Event)
        ensures
            e == (Event::WindowEvent { window_id: self@, event: WindowEvent::RedrawRequested }),
    {
        Event::WindowEvent { window_id: self.id, event: WindowEvent::RedrawRequested }
    }

    /// Tells the window that a frame is about to be presented. Nothing to do.
    pub fn pre_present_notify(&self) {
    }

    /// Where the pointer is: not known.
    pub fn pointer_position(&self) -> (r: Option<PhysicalPosition<i32>>)
        ensures
            r is None,
    {
        None
    }

    /// The window's top-left corner on the desktop: not supported.
    pub fn outer_position(&self) -> (r: Result<PhysicalPosition<i32>, NotSupportedError>)
        ensures
            r == Err::<PhysicalPosition<i32>, NotSupportedError>(NotSupportedError),
    {
        Err(NotSupportedError::new())
    }

    /// The top-left corner of the window's client area. The canvas has no decorations, so this
    /// is the outer position: not supported.
    pub fn inner_position(&self) -> (r: Result<PhysicalPosition<i32>, NotSupportedError>)
        ensures
            r == Err::<PhysicalPosition<i32>, NotSupportedError>(NotSupportedError),
    {
        self.outer_position()
    }

    /// Moves the window. Ignored.
    pub fn set_outer_position(&self, _position: Position) {
    }

    /// Asks for a new inner size. The request is not carried out at once, so no size is given back.
    pub fn request_inner_size(&self, _size: Size) -> (r: Option<PhysicalSize<u32>>)
        ensures
            r is None,
    {
        None
    }

    /// Sets the least inner size. Ignored.
    pub fn set_min_inner_size(&self, _dimensions: Option<Size>) {
    }

    /// Sets the greatest inner size. Ignored.
    pub fn set_max_inner_size(&self, _dimensions: Option<Size>) {
    }

    /// The steps in which the window is resized: none.
    pub fn resize_increments(&self) -> (r: Option<PhysicalSize<u32>>)
        ensures
            r is None,
    {
        None
    }

    /// Sets the steps in which the window is resized. Ignored: users cannot resize a canvas.
    pub fn set_resize_increments(&self, _increments: Option<Size>) {
    }

    /// Lets users resize the window, or not. Ignored: users cannot resize a canvas.
    pub fn set_resizable(&self, _resizable: bool) {
    }

    /// Whether the window can be resized: it can, with the page.
    pub fn is_resizable(&self) -> (r: bool)
        ensures
            r,
    {
        true
    }

    /// Sets which title-bar buttons are enabled. Ignored.
    pub fn set_enabled_buttons(&self, _buttons: WindowButtons) {
    }

    /// Which title-bar buttons are enabled: all of them.
    pub fn enabled_buttons(&self) -> (b: WindowButtons)
        ensures
            b@ == 7,
    {
        WindowButtons::all()
    }

    /// Sets the cursor. Ignored.
    pub fn set_cursor(&self, _cursor: Cursor) {
    }

    /// Moves the cursor: not supported.
    pub fn set_cursor_position(&self, _position: Position) -> (r: Result<(), ExternalError>)
        ensures
            r == Err::<(), ExternalError>(ExternalError::NotSupported(NotSupportedError)),
    {
        Err(ExternalError::NotSupported(NotSupportedError::new()))
    }

    /// Holds the cursor to the window: not supported.
    pub fn set_cursor_grab(&self, _mode: CursorGrabMode) -> (r: Result<(), ExternalError>)
        ensures
            r == Err::<(), ExternalError>(ExternalError::NotSupported(NotSupportedError)),
    {
        Err(ExternalError::NotSupported(NotSupportedError::new()))
    }

    /// Shows or hides the cursor. Ignored.
    pub fn set_cursor_visible(&self, _visible: bool) {
    }

    /// Moves the window with the pointer: not supported.
    pub fn drag_window(&self) -> (r: Result<(), ExternalError>)
        ensures
            r == Err::<(), ExternalError>(ExternalError::NotSupported(NotSupportedError)),
    {
        Err(ExternalError::NotSupported(NotSupportedError::new()))
    }

    /// Resizes the window with the pointer: not supported.
    pub fn drag_resize_window(&self, _direction: ResizeDirection) -> (r: Result<(), ExternalError>)
        ensures
            r == Err::<(), ExternalError>(ExternalError::NotSupported(NotSupportedError)),
    {
        Err(ExternalError::NotSupported(NotSupportedError::new()))
    }

    /// Shows the window menu. Ignored: there is none.
    pub fn show_window_menu(&self, _position: Position) {
    }

    /// Lets the pointer pass through the window, or not: not supported.
    pub fn set_cursor_hittest(&self, _hittest: bool) -> (r: Result<(), ExternalError>)
        ensures
            r == Err::<(), ExternalError>(ExternalError::NotSupported(NotSupportedError)),
    {
        Err(ExternalError::NotSupported(NotSupportedError::new()))
    }

    /// Minimizes the window. Ignored: a canvas cannot be minimized.
    pub fn set_minimized(&self, _minimized: bool) {
    }

    /// Whether the window is minimized: a canvas cannot be, so no.
    pub fn is_minimized(&self) -> (r: Option<bool>)
        ensures
            r == Some(false),
    {
        Some(false)
    }

    /// Maximizes the window. Ignored: a canvas cannot be maximized.
    pub fn set_maximized(&self, _maximized: bool) {
    }

    /// Whether the window is maximized: a canvas cannot be, so no.
    pub fn is_maximized(&self) -> (r: bool)
        ensures
            !r,
    {
        false
    }

    /// How the window fills the screen: it is not fullscreen.
    pub fn fullscreen(&self) -> (r: Option<Fullscreen>)
        ensures
            r is None,
    {
        None
    }

    /// Makes the window fullscreen, or not. Ignored.
    pub fn set_fullscreen(&self, _fullscreen: Option<Fullscreen>) {
    }

    /// Turns the window's decorations on or off. Ignored: a canvas has none.
    pub fn set_decorations(&self, _decorations: bool) {
    }

    /// Whether the window is decorated: this backend answers yes.
    pub fn is_decorated(&self) -> (r: bool)
        ensures
            r,
    {
        true
    }

    /// Sets where the window stands among the others. Ignored: windows are not ordered.
    pub fn set_window_level(&self, _level: WindowLevel) {
    }

    /// Sets the window's icon. Ignored.
    pub fn set_window_icon(&self, _window_icon: Option<Icon>) {
    }

    /// Tells the IME what the text is for. Ignored.
    pub fn set_ime_purpose(&self, _purpose: ImePurpose) {
    }

    /// Commits the IME's pending text. Nothing to do.
    pub fn commit_ime(&self) {
    }

    /// Gives the window the focus. Ignored.
    pub fn focus_window(&self) {
    }

    /// Asks for the user's attention. Ignored.
    pub fn request_user_attention(&self, _request_type: Option<UserAttentionType>) {
    }

    /// The monitor the window is on: none is known.
    pub fn current_monitor(&self) -> (r: Option<MonitorHandle>)
        ensures
            r is None,
    {
        None
    }

    /// The monitors there are: none is known.
    pub fn available_monitors(&self) -> (r: VecDeque<MonitorHandle>)
        ensures
            r@.len() == 0,
    {
        VecDeque::new()
    }

    /// The primary monitor: none is known.
    pub fn primary_monitor(&self) -> (r: Option<MonitorHandle>)
        ensures
            r is None,
    {
        None
    }

    /// The window's id.
    pub fn id(&self) -> (id: WindowId)
        ensures
            id == self@,
    {
        self.id
    }

    /// Sets the window's theme. Ignored.
    pub fn set_theme(&self, _theme: Option<Theme>) {
    }

    /// The window's theme: not known.
    pub fn theme(&self) -> (r: Option<Theme>)
        ensures
            r is None,
    {
        None
    }

    /// Keeps the window's content from being captured, or not. Ignored.
    pub fn set_content_protected(&self, _protected: bool) {
    }

    /// Whether the window has the focus: this backend answers yes.
    pub fn has_focus(&self) -> (r: bool)
        ensures
            r,
    {
        true
    }

    /// The window's title: empty, as titles are not kept.
    pub fn title(&self) -> (t: String)
        ensures
            t@ == Seq::<char>::empty(),
    {
        String::new()
    }

    /// Forgets the dead keys pressed so far. Not supported: nothing is done.
    pub fn reset_dead_keys(&self) {
    }
}

/// The state that `maybe_queue_on_main` and `maybe_wait_on_main` hand to their closures is the
/// window's own: it carries the window's id.
pub proof fn lemma_inner_is_the_window(w: &Window)
    ensures
        w.spec_inner()@ == w@,
{
}

} // verus!
