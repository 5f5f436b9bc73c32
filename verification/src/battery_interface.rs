//! Sources of battery snapshots.

use vstd::prelude::*;
use crate::battery_info::BatteryInfo;

pub mod bootstrap;
pub mod upower;

verus! {

/// A source that can be asked for the current snapshot. What it answers is
/// its own affair: it reaches outside the program for it.
pub trait BatteryInterface {
    /// What the source reports when it cannot give a snapshot.
    type Error;

    fn battery_info() -> Result<BatteryInfo, Self::Error>;
}

} // verus!
