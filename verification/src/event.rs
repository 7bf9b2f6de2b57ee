//! The events that the window sends to the application.

use vstd::prelude::*;
use crate::window_id::WindowId;

verus! {

/// Something that happened to a window.
#[derive(Debug, Clone, Copy, PartialEq)]
pub enum WindowEvent {
    /// The window's inner size changed to the given size.
    Resized(dpi::PhysicalSize<u32>),
    /// The window should be drawn again.
    RedrawRequested,
}

/// An event for the application.
#[derive(Debug, Clone, Copy, PartialEq)]
pub enum Event {
    /// Something happened to the window with the given id.
    WindowEvent { window_id: WindowId, event: WindowEvent },
}

} // verus!
