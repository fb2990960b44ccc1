//! The monitor directory: enumeration of display surfaces and their
//! geometry and scale.
//!
//! This backend drives a single synthetic display surface, so enumeration
//! always yields exactly one monitor and the primary monitor is that first
//! entry. The surface has no absolute-position concept; asking for one is a
//! documented capability gap, not a recoverable error, so `MonitorId` offers
//! no position query here and the unverified platform layer fails loudly
//! instead.

use crate::dpi::PhysicalSize;
use crate::dpi::ScaleFactor;
use std::collections::VecDeque;
use vstd::prelude::*;

verus! {

/// Backend-local handle to the single display surface.
#[derive(Debug, Clone, Copy, PartialEq, Eq, Structural)]
pub struct MonitorId;

/// The sequence of display surfaces this backend exposes.
pub open spec fn spec_monitors() -> Seq<MonitorId> {
    seq![MonitorId]
}

/// The deterministic primary monitor: the first enumerated one.
pub open spec fn spec_primary_monitor() -> MonitorId {
    MonitorId
}

impl MonitorId {
    /// The human-readable name of the surface, when one is available.
    pub fn get_name(&self) -> (r: Option<String>)
        ensures
            r matches Some(n) && n@ == "window"@,
    {
        Some(String::from_str("window"))
    }

    /// The physical size of the surface. The synthetic surface reports no
    /// extent, which callers must treat as "unknown", not as a real size.
    pub fn get_dimensions(&self) -> (r: PhysicalSize)
        ensures
            r == (PhysicalSize { width: 0, height: 0 }),
    {
        PhysicalSize { width: 0, height: 0 }
    }

    /// The surface's scale factor: a best-effort value that always exists
    /// and is always strictly positive; `1.0` when nothing better is known.
    pub fn get_hidpi_factor(&self) -> (r: ScaleFactor)
        ensures
            r == (ScaleFactor { thousandths: 1000 }),
            r.wf(),
    {
        ScaleFactor::identity()
    }
}

/// Builds the enumeration of available monitors.
pub(crate) fn available_monitors() -> (r: VecDeque<MonitorId>)
    ensures
        r@ == spec_monitors(),
{
    let mut list: VecDeque<MonitorId> = VecDeque::with_capacity(1);
    list.push_back(MonitorId);
    proof {
        assert(list@ =~= spec_monitors());
    }
    list
}

/// Law: enumeration of monitors is never empty on this backend, and the
/// primary monitor is the first enumerated entry.
pub proof fn lemma_primary_monitor_is_first()
    ensures
        spec_monitors().len() >= 1,
        spec_primary_monitor() == spec_monitors()[0],
{
}

} // verus!
