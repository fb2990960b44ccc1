//! The identity registry: opaque, comparable, orderable handles for windows
//! and input devices.
//!
//! Identities are cheap to copy and usable as map keys. Uniqueness is only
//! guaranteed among identities issued by one `EventsLoop` instance; each kind
//! also has a `dummy` sentinel that refers to no live resource and must never
//! be used to address an operation.

use vstd::prelude::*;

verus! {

/// Opaque identity of a window, unique among the windows created by one
/// `EventsLoop` instance for as long as they live.
#[derive(Debug, Clone, Copy, PartialEq, Eq, PartialOrd, Ord, Hash, Structural)]
pub struct WindowId(u32);

impl WindowId {
    /// The numeric value behind the identity, for specifications only.
    pub closed spec fn value(&self) -> u32 {
        self.0
    }

    /// Wraps a raw identity value issued by the event loop.
    pub(crate) fn make(v: u32) -> (r: WindowId)
        ensures
            r.value() == v,
    {
        WindowId(v)
    }

    /// A sentinel identity that refers to no live window. It may stand for
    /// "no window yet"; addressing any real operation with it is outside
    /// this abstraction's contract. Identities issued by an event loop are
    /// never equal to it.
    pub fn dummy() -> (r: WindowId)
        ensures
            r.value() == 0,
    {
        WindowId(0)
    }
}

/// Reads the numeric value behind a window identity, for the platform
/// interop layer.
pub(crate) fn window_id_value(id: &WindowId) -> (r: u32)
    ensures
        r == id.value(),
{
    id.0
}

/// Law: window identities are nothing but their value; two identities are
/// equal exactly when their values are.
pub proof fn lemma_window_id_injective(a: WindowId, b: WindowId)
    ensures
        a == b <==> a.value() == b.value(),
{
}

/// Opaque identity of an input source. This backend cannot distinguish
/// devices, so only the sentinel value exists.
#[derive(Debug, Clone, Copy, PartialEq, Eq, PartialOrd, Ord, Hash, Structural)]
pub struct DeviceId;

impl DeviceId {
    /// The placeholder identity for a backend with no distinguishable
    /// input devices.
    pub fn dummy() -> DeviceId {
        DeviceId
    }
}

} // verus!
