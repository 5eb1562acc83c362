//! The threshold policy and the latches that keep an alert from being
//! raised again while the battery stays below a threshold.

use vstd::prelude::*;
use crate::reading::BatteryReading;
use crate::reading::CRITICAL_THRESHOLD;
use crate::reading::LOW_THRESHOLD;

verus! {

/// What the policy asks for after one reading.
#[derive(Clone, Copy, Debug, PartialEq, Eq, Structural)]
pub enum AlertTier {
    Suppress,
    ShowLow,
    ShowCritical,
}

/// The latches seen as one of three states.
#[derive(Clone, Copy, Debug, PartialEq, Eq, Structural)]
pub enum SuppressionPhase {
    Idle,
    LowShown,
    CriticalShown,
}

/// The alert state that the polling loop owns and hands to every
/// evaluation of the policy.
#[derive(Clone, Copy, Debug, PartialEq, Eq, Structural)]
pub struct AlertState {
    /// A low alert was shown since charging was last seen.
    pub has_shown_low: bool,
    /// A critical alert was shown since charging was last seen.
    pub has_shown_critical: bool,
    /// The open popup has seen a critical level. Sticky within a session.
    pub is_critical_confirmed: bool,
}

/// The tier the policy returns for `reading` in `state`.
pub open spec fn decision(reading: BatteryReading, state: AlertState) -> AlertTier {
    if reading.is_charging || state.has_shown_critical {
        AlertTier::Suppress
    } else if reading.level <= CRITICAL_THRESHOLD {
        AlertTier::ShowCritical
    } else if state.has_shown_low || reading.level > LOW_THRESHOLD {
        AlertTier::Suppress
    } else {
        AlertTier::ShowLow
    }
}

impl AlertState {
    /// The state as the policy leaves it: a charging reading clears both
    /// latches, any other reading changes nothing.
    pub open spec fn observed(self, reading: BatteryReading) -> AlertState {
        if reading.is_charging {
            AlertState { has_shown_low: false, has_shown_critical: false, ..self }
        } else {
            self
        }
    }

    /// The state after an alert of `tier` was shown.
    pub open spec fn applied(self, tier: AlertTier) -> AlertState {
        match tier {
            AlertTier::Suppress => self,
            AlertTier::ShowLow => AlertState { has_shown_low: true, ..self },
            AlertTier::ShowCritical => AlertState {
                has_shown_low: true,
                has_shown_critical: true,
                ..self
            },
        }
    }

    /// The state after one round of the polling loop: the policy is
    /// evaluated and what it asked for is recorded.
    pub open spec fn polled(self, reading: BatteryReading) -> AlertState {
        self.observed(reading).applied(decision(reading, self))
    }

    /// The latches as a phase. The critical latch outranks the low one.
    pub open spec fn phase_of(self) -> SuppressionPhase {
        if self.has_shown_critical {
            SuppressionPhase::CriticalShown
        } else if self.has_shown_low {
            SuppressionPhase::LowShown
        } else {
            SuppressionPhase::Idle
        }
    }

    /// No alert shown, nothing confirmed.
    pub fn new() -> (s: AlertState)
        ensures
            !s.has_shown_low,
            !s.has_shown_critical,
            !s.is_critical_confirmed,
            s.phase_of() == SuppressionPhase::Idle,
    {
        AlertState { has_shown_low: false, has_shown_critical: false, is_critical_confirmed: false }
    }

    pub fn phase(&self) -> (p: SuppressionPhase)
        ensures
            p == self.phase_of(),
    {
        if self.has_shown_critical {
            SuppressionPhase::CriticalShown
        } else if self.has_shown_low {
            SuppressionPhase::LowShown
        } else {
            SuppressionPhase::Idle
        }
    }

    /// Evaluates the policy for one reading. The rules, in order:
    /// charging clears both latches and suppresses; a set critical latch
    /// suppresses; a set low latch suppresses above the critical
    /// threshold; above the low threshold nothing is shown; otherwise the
    /// level picks the tier.
    pub fn decide(&mut self, reading: BatteryReading) -> (tier: AlertTier)
        ensures
            tier == decision(reading, *old(self)),
            *final(self) == old(self).observed(reading),
            reading.is_charging ==> tier == AlertTier::Suppress
                && !final(self).has_shown_low && !final(self).has_shown_critical,
    {
        if reading.is_charging {
            self.has_shown_low = false;
            self.has_shown_critical = false;
            return AlertTier::Suppress;
        }
        if self.has_shown_critical {
            return AlertTier::Suppress;
        }
        if self.has_shown_low && reading.level > CRITICAL_THRESHOLD {
            return AlertTier::Suppress;
        }
        if reading.level > CRITICAL_THRESHOLD {
            if reading.level > LOW_THRESHOLD {
                AlertTier::Suppress
            } else {
                AlertTier::ShowLow
            }
        } else {
            AlertTier::ShowCritical
        }
    }

    /// Records that an alert of `tier` was shown. `Suppress` records
    /// nothing; a critical alert sets both latches.
    pub fn apply(&mut self, tier: AlertTier)
        ensures
            *final(self) == old(self).applied(tier),
    {
        match tier {
            AlertTier::Suppress => {},
            AlertTier::ShowLow => {
                self.has_shown_low = true;
            },
            AlertTier::ShowCritical => {
                self.has_shown_low = true;
                self.has_shown_critical = true;
            },
        }
    }
}

impl SuppressionPhase {
    /// The phase that follows `self` when the policy, having seen
    /// `reading`, asked for `tier`.
    pub open spec fn next_of(self, reading: BatteryReading, tier: AlertTier) -> SuppressionPhase {
        if reading.is_charging {
            SuppressionPhase::Idle
        } else {
            match (self, tier) {
                (SuppressionPhase::CriticalShown, _) => SuppressionPhase::CriticalShown,
                (_, AlertTier::ShowCritical) => SuppressionPhase::CriticalShown,
                (SuppressionPhase::Idle, AlertTier::ShowLow) => SuppressionPhase::LowShown,
                (p, _) => p,
            }
        }
    }

    /// Moves the machine by one reading and the tier that the policy
    /// asked for: charging leads to `Idle` from anywhere, a low alert
    /// from `Idle` to `LowShown`, a critical alert to `CriticalShown`,
    /// which nothing but charging leaves.
    pub fn next(self, reading: BatteryReading, tier: AlertTier) -> (p: SuppressionPhase)
        ensures
            p == self.next_of(reading, tier),
    {
        if reading.is_charging {
            SuppressionPhase::Idle
        } else if self == SuppressionPhase::CriticalShown || tier == AlertTier::ShowCritical {
            SuppressionPhase::CriticalShown
        } else if self == SuppressionPhase::Idle && tier == AlertTier::ShowLow {
            SuppressionPhase::LowShown
        } else {
            self
        }
    }
}

} // verus!
