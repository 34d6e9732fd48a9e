//! The daemon cleans once at start, then once per configured interval.

use vstd::prelude::*;
use crate::config::KazeConfig;

verus! {

/// The seconds between two cleanings. The interval must be at least a
/// minute, and its seconds must fit in a `u64`.
pub fn tick_period_secs(config: &KazeConfig) -> (r: u64)
    requires
        config.schedule.interval_minutes > 0,
        config.schedule.interval_minutes * 60 <= u64::MAX,
    ensures
        r == config.schedule.interval_minutes * 60,
        r > 0,
{
    config.schedule.interval_minutes * 60
}

} // verus!
