//! Monitors and video modes. A page in a browser exposes neither, so this backend never hands
//! out a value of these types: their invariant holds of no value, and their methods cannot be
//! reached.

use vstd::prelude::*;

verus! {

/// A monitor. The backend reports no monitors, so no value of this type is ever made.
#[derive(Debug, PartialEq, Eq, Hash)]
pub struct MonitorHandle {
    never: bool,
}

/// A video mode of a monitor. The backend reports no video modes, so no value of this type is
/// ever made.
#[derive(Debug, PartialEq, Eq, Hash)]
pub struct VideoModeHandle {
    never: bool,
}

/// How a window fills a screen.
#[derive(Debug, Clone, PartialEq, Eq)]
pub enum Fullscreen {
    /// In the given video mode.
    Exclusive(VideoModeHandle),
    /// Without changing the video mode, on the given monitor or on the current one.
    Borderless(Option<MonitorHandle>),
}

impl MonitorHandle {
    /// No value of the type satisfies this: none can be built, in this crate or elsewhere.
    #[verifier::type_invariant]
    spec fn exists_none(self) -> bool {
        false
    }
}

impl VideoModeHandle {
    /// No value of the type satisfies this: none can be built, in this crate or elsewhere.
    #[verifier::type_invariant]
    spec fn exists_none(self) -> bool {
        false
    }
}

impl Clone for MonitorHandle {
    fn clone(&self) -> (r: Self) {
        proof { use_type_invariant(self); }
        vstd::pervasive::unreached()
    }
}

impl Clone for VideoModeHandle {
    fn clone(&self) -> (r: Self) {
        proof { use_type_invariant(self); }
        vstd::pervasive::unreached()
    }
}

impl MonitorHandle {
    /// The monitor's top-left corner on the desktop. No monitor exists, so this is never called.
    pub fn position(&self) -> dpi::PhysicalPosition<i32> {
        proof { use_type_invariant(self); }
        vstd::pervasive::unreached()
    }

    /// The monitor's name. No monitor exists, so this is never called.
    pub fn name(&self) -> Option<String> {
        proof { use_type_invariant(self); }
        vstd::pervasive::unreached()
    }

    /// The monitor's refresh rate. No monitor exists, so this is never called.
    pub fn refresh_rate_millihertz(&self) -> Option<u32> {
        proof { use_type_invariant(self); }
        vstd::pervasive::unreached()
    }

    /// The monitor's resolution. No monitor exists, so this is never called.
    pub fn size(&self) -> dpi::PhysicalSize<u32> {
        proof { use_type_invariant(self); }
        vstd::pervasive::unreached()
    }

    /// The monitor's video modes. No monitor exists, so this is never called.
    pub fn video_modes(&self) -> Vec<VideoModeHandle> {
        proof { use_type_invariant(self); }
        vstd::pervasive::unreached()
    }
}

impl VideoModeHandle {
    /// The mode's resolution. No video mode exists, so this is never called.
    pub fn size(&self) -> dpi::PhysicalSize<u32> {
        proof { use_type_invariant(self); }
        vstd::pervasive::unreached()
    }

    /// The mode's color depth in bits. No video mode exists, so this is never called.
    pub fn bit_depth(&self) -> u16 {
        proof { use_type_invariant(self); }
        vstd::pervasive::unreached()
    }

    /// The mode's refresh rate. No video mode exists, so this is never called.
    pub fn refresh_rate_millihertz(&self) -> u32 {
        proof { use_type_invariant(self); }
        vstd::pervasive::unreached()
    }

    /// The monitor of the mode. No video mode exists, so this is never called.
    pub fn monitor(&self) -> MonitorHandle {
        proof { use_type_invariant(self); }
        vstd::pervasive::unreached()
    }
}

} // verus!
