//! Window ids, and their conversion to and from `u64`.

use vstd::prelude::*;

verus! {

/// The identifier of a window. This backend has a single window, whose id is `WindowId(0)`.
#[derive(Debug, Copy, Clone, PartialEq, Eq, PartialOrd, Ord, Hash, Structural)]
pub struct WindowId(pub usize);

/// The `u64` that an id converts to: its number, which always fits.
pub open spec fn id_to_u64(id: WindowId) -> u64 {
    id.0 as u64
}

/// The id that a `u64` converts to: the number cast to `usize`, which keeps it whole where it
/// fits and truncates it on a target whose `usize` is narrower.
pub open spec fn u64_to_id(x: u64) -> WindowId {
    WindowId(x as usize)
}

impl WindowId {
    /// The id that the single window of this backend carries.
    pub fn dummy() -> (id: WindowId)
        ensures
            id == WindowId(0),
    {
        WindowId(0)
    }
}

impl Into<u64> for WindowId {
    fn into(self) -> u64 {
        self.0 as u64
    }
}

/// What `into` returns, as the trait's contract reads it: `id_to_u64`.
impl vstd::std_specs::convert::IntoSpecImpl<u64> for WindowId {
    open spec fn obeys_into_spec() -> bool {
        true
    }

    open spec fn into_spec(self) -> u64 {
        id_to_u64(self)
    }
}

impl Into<WindowId> for u64 {
    fn into(self) -> WindowId {
        WindowId(self as usize)
    }
}

/// What `into` returns, as the trait's contract reads it: `u64_to_id`.
impl vstd::std_specs::convert::IntoSpecImpl<WindowId> for u64 {
    open spec fn obeys_into_spec() -> bool {
        true
    }

    open spec fn into_spec(self) -> WindowId {
        u64_to_id(self)
    }
}

/// An id converted to `u64` and back is the same id.
pub proof fn lemma_id_u64_round_trip(id: WindowId)
    ensures
        u64_to_id(id_to_u64(id)) == id,
{
}

/// A `u64` that fits in `usize`, converted to an id and back, is the same number.
pub proof fn lemma_u64_id_round_trip(x: u64)
    requires
        x <= usize::MAX,
    ensures
        id_to_u64(u64_to_id(x)) == x,
{
}

/// Converting an id to `u64` keeps its number: the `u64` that `into` gives is the id's own
/// number, for every id.
pub proof fn lemma_into_u64_keeps_number(id: WindowId)
    ensures
        <WindowId as vstd::std_specs::convert::IntoSpec<u64>>::obeys_into_spec(),
        <WindowId as vstd::std_specs::convert::IntoSpec<u64>>::into_spec(id) as int == id.0 as int,
{
}

/// Converting a `u64` that fits in `usize` to an id keeps its number: the id that `into` gives
/// carries that very number.
pub proof fn lemma_into_id_keeps_number(x: u64)
    requires
        x <= usize::MAX,
    ensures
        <u64 as vstd::std_specs::convert::IntoSpec<WindowId>>::obeys_into_spec(),
        <u64 as vstd::std_specs::convert::IntoSpec<WindowId>>::into_spec(x).0 as int == x as int,
{
}

} // verus!
