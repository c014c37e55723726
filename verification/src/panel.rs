//! Requests that one panel makes to open another.
use vstd::prelude::*;

verus! {

/// A panel that a button asks to open: the detail panel of an army or a
/// fleet, or the logistics panel.
#[derive(Clone, Copy, Debug, PartialEq, Eq, Structural)]
pub enum PanelRequest {
    ArmyDetail { army_id: u32 },
    FleetDetail { fleet_id: u32 },
    Logistics,
}

} // verus!
