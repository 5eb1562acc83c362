//! One sample of the battery and the two thresholds it is held against.

use vstd::prelude::*;

verus! {

/// At or below this charge (percent) a reading is low.
pub const LOW_THRESHOLD: i32 = 20;

/// At or below this charge (percent) a reading is critical.
pub const CRITICAL_THRESHOLD: i32 = 10;

/// Seconds between two samples while no popup is open.
pub const POLL_INTERVAL_SECONDS: u64 = 1;

/// The charge of a full battery, in percent.
pub const FULL_LEVEL: i32 = 100;

/// The level that stands for "could not be read".
pub const UNKNOWN_LEVEL: i32 = -1;

/// One sample of the battery: its charge and whether it is charging.
#[derive(Clone, Copy, Debug, PartialEq, Eq, Structural)]
pub struct BatteryReading {
    /// Percent of charge, or `UNKNOWN_LEVEL`.
    pub level: i32,
    pub is_charging: bool,
}

impl BatteryReading {
    /// The level is at or below the critical threshold. An unknown level
    /// is compared as the number it is, so it counts as critical.
    pub open spec fn critical(&self) -> bool {
        self.level <= CRITICAL_THRESHOLD
    }

    /// The level is one that a reading can have: unknown, or a percentage.
    pub open spec fn in_range(&self) -> bool {
        self.level == UNKNOWN_LEVEL || 0 <= self.level <= FULL_LEVEL
    }

    /// The level is at or below the low threshold.
    pub open spec fn low(&self) -> bool {
        self.level <= LOW_THRESHOLD
    }

    pub fn new(level: i32, is_charging: bool) -> (r: BatteryReading)
        ensures
            r.level == level,
            r.is_charging == is_charging,
    {
        BatteryReading { level, is_charging }
    }

    /// The reading held before the battery was first sampled.
    pub fn unknown() -> (r: BatteryReading)
        ensures
            r.level == UNKNOWN_LEVEL,
            !r.is_charging,
            r.critical(),
            r.in_range(),
    {
        BatteryReading { level: UNKNOWN_LEVEL, is_charging: false }
    }

    pub fn is_critical(&self) -> (b: bool)
        ensures
            b == self.critical(),
    {
        self.level <= CRITICAL_THRESHOLD
    }

    pub fn is_in_range(&self) -> (b: bool)
        ensures
            b == self.in_range(),
    {
        self.level == UNKNOWN_LEVEL || (0 <= self.level && self.level <= FULL_LEVEL)
    }

    pub fn is_low(&self) -> (b: bool)
        ensures
            b == self.low(),
    {
        self.level <= LOW_THRESHOLD
    }
}

/// The critical threshold lies strictly below the low one, so every
/// critical reading is also low.
pub proof fn critical_is_low(reading: BatteryReading)
    ensures
        CRITICAL_THRESHOLD < LOW_THRESHOLD,
        reading.critical() ==> reading.low(),
{
}

} // verus!
