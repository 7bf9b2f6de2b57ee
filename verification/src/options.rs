//! The settings that an application can ask of a window. This backend accepts each of them and
//! acts on none: a canvas in a page has no decorations, level, icon, theme or cursor of its own.

use vstd::prelude::*;

verus! {

/// How the cursor is held to the window.
#[derive(Debug, Clone, Copy, PartialEq, Eq, Hash, Structural)]
pub enum CursorGrabMode {
    /// The cursor moves freely.
    Free,
    /// The cursor stays inside the window.
    Confined,
    /// The cursor stays where it is.
    Locked,
}

/// What the text being entered through an IME is for.
#[derive(Debug, Clone, Copy, PartialEq, Eq, Hash, Structural)]
pub enum ImePurpose {
    /// Ordinary text.
    Normal,
    /// A password, which is not shown.
    Password,
    /// Text for a terminal.
    Terminal,
}

/// The edge or corner from which a window is resized.
#[derive(Debug, Clone, Copy, PartialEq, Eq, Hash, Structural)]
pub enum ResizeDirection {
    East,
    North,
    NorthEast,
    NorthWest,
    South,
    SouthEast,
    SouthWest,
    West,
}

/// The color theme of a window.
#[derive(Debug, Clone, Copy, PartialEq, Eq, Hash, Structural)]
pub enum Theme {
    Light,
    Dark,
}

/// How urgently the window asks for the user's attention.
#[derive(Debug, Clone, Copy, PartialEq, Eq, Hash, Structural)]
pub enum UserAttentionType {
    /// Until the user acts on the window.
    Critical,
    /// Briefly.
    Informational,
}

/// Where the window stands among the others.
#[derive(Debug, Clone, Copy, PartialEq, Eq, Hash, Structural)]
pub enum WindowLevel {
    AlwaysOnBottom,
    Normal,
    AlwaysOnTop,
}

/// The set of title-bar buttons of a window: bit 0 close, bit 1 minimize, bit 2 maximize.
#[derive(Debug, Clone, Copy, PartialEq, Eq, Hash, Structural)]
pub struct WindowButtons {
    bits: u32,
}

impl View for WindowButtons {
    type V = u32;

    closed spec fn view(&self) -> u32 {
        self.bits
    }
}

impl WindowButtons {
    /// All three buttons.
    pub fn all() -> (b: WindowButtons)
        ensures
            b@ == 7,
    {
        WindowButtons { bits: 7 }
    }

    /// The buttons as bits.
    pub fn bits(&self) -> (bits: u32)
        ensures
            bits == self@,
    {
        self.bits
    }
}

/// The cursor an application asks for: a system icon, named by its CSS keyword, or a custom
/// image, named by the id it was registered under.
#[derive(Debug, Clone)]
pub enum Cursor {
    Icon(String),
    Custom(u64),
}

/// A window icon: `width * height` pixels of RGBA bytes.
#[derive(Debug, Clone)]
pub struct Icon {
    pub rgba: Vec<u8>,
    pub width: u32,
    pub height: u32,
}

} // verus!
