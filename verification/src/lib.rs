//! The window of the emscripten backend: a single canvas that fills the page body.

pub mod error;
pub mod event;
pub mod monitor;
pub mod options;
mod outside;
pub mod script;
pub mod window;
pub mod window_id;

pub use error::{ExternalError, NotSupportedError, OsError};
pub use event::{Event, WindowEvent};
pub use monitor::{Fullscreen, MonitorHandle, VideoModeHandle};
pub use options::{
    Cursor, CursorGrabMode, Icon, ImePurpose, ResizeDirection, Theme, UserAttentionType,
    WindowButtons, WindowLevel,
};
pub use script::{ime_allowed_script, ime_cursor_script};
pub use window::{
    Inner, PlatformSpecificWindowAttributes, PlatformSpecificWindowBuilderAttributes, Window,
};
pub use window_id::WindowId;
