//! The outside types that the window's signatures carry, and the calls that build values of them.

use vstd::prelude::*;

verus! {

/// A position in logical or physical pixels (`dpi::Position`).
#[verifier::external_type_specification]
#[verifier::external_body]
pub struct ExPosition(dpi::Position);

/// A size in logical or physical pixels (`dpi::Size`).
#[verifier::external_type_specification]
#[verifier::external_body]
pub struct ExSize(dpi::Size);

/// A position in physical pixels (`dpi::PhysicalPosition`).
#[verifier::external_type_specification]
#[verifier::external_body]
#[verifier::reject_recursive_types(P)]
pub struct ExPhysicalPosition<P>(dpi::PhysicalPosition<P>);

/// A size in physical pixels (`dpi::PhysicalSize`).
#[verifier::external_type_specification]
#[verifier::external_body]
#[verifier::reject_recursive_types(P)]
pub struct ExPhysicalSize<P>(dpi::PhysicalSize<P>);

/// A raw window handle (`raw_window_handle::RawWindowHandle`).
#[verifier::external_type_specification]
#[verifier::external_body]
pub struct ExRawWindowHandle(raw_window_handle::RawWindowHandle);

/// A raw display handle (`raw_window_handle::RawDisplayHandle`).
#[verifier::external_type_specification]
#[verifier::external_body]
pub struct ExRawDisplayHandle(raw_window_handle::RawDisplayHandle);

/// Why a raw handle cannot be had (`raw_window_handle::HandleError`).
#[verifier::external_type_specification]
#[verifier::external_body]
pub struct ExHandleError(raw_window_handle::HandleError);

/// Builds `raw_window_handle::HandleError::Unavailable`, the error for a handle that the
/// window system cannot hand out right now. The value is opaque here: nothing is claimed of it.
#[verifier::external_body]
pub(crate) fn handle_unavailable() -> (e: raw_window_handle::HandleError) {
    raw_window_handle::HandleError::Unavailable
}

/// Builds `RawDisplayHandle::Web(WebDisplayHandle::new())`, the display handle of a web page,
/// which carries no data. The value is opaque here: nothing is claimed of it.
#[verifier::external_body]
pub(crate) fn web_display_handle() -> (h: raw_window_handle::RawDisplayHandle) {
    raw_window_handle::RawDisplayHandle::Web(raw_window_handle::WebDisplayHandle::new())
}

} // verus!
