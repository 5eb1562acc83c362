//! What holds of the policy over every reading and every state.

use vstd::prelude::*;
use crate::reading::BatteryReading;
use crate::reading::CRITICAL_THRESHOLD;
use crate::reading::LOW_THRESHOLD;
use crate::policy::AlertState;
use crate::policy::AlertTier;
use crate::policy::SuppressionPhase;
use crate::policy::decision;
use crate::popup::opened;

verus! {

/// A charging reading is always suppressed and clears both latches,
/// whatever its level and whatever the state was.
pub proof fn charging_suppresses_and_resets(reading: BatteryReading, state: AlertState)
    requires
        reading.is_charging,
    ensures
        decision(reading, state) == AlertTier::Suppress,
        !state.observed(reading).has_shown_low,
        !state.observed(reading).has_shown_critical,
        state.polled(reading).phase_of() == SuppressionPhase::Idle,
{
}

/// A reading that is not charging, with its level above the critical and
/// at most the low threshold, gives a low alert while neither latch is
/// set, and recording that alert sets the low latch.
pub proof fn low_band_shows_low(reading: BatteryReading, state: AlertState)
    requires
        !reading.is_charging,
        CRITICAL_THRESHOLD < reading.level <= LOW_THRESHOLD,
        !state.has_shown_low,
        !state.has_shown_critical,
    ensures
        decision(reading, state) == AlertTier::ShowLow,
        state.polled(reading).has_shown_low,
        state.polled(reading).phase_of() == SuppressionPhase::LowShown,
{
}

/// A reading that is not charging, at or below the critical threshold,
/// gives a critical alert whether or not a low alert was shown, as long
/// as no critical alert was shown yet.
pub proof fn critical_level_shows_critical(reading: BatteryReading, state: AlertState)
    requires
        !reading.is_charging,
        reading.level <= CRITICAL_THRESHOLD,
        !state.has_shown_critical,
    ensures
        decision(reading, state) == AlertTier::ShowCritical,
        state.polled(reading).has_shown_critical,
        state.polled(reading).phase_of() == SuppressionPhase::CriticalShown,
{
}

/// Once a critical alert was recorded, every later reading that is not
/// charging is suppressed, at any level, and leaves the state as it is.
pub proof fn critical_latch_suppresses(state: AlertState, later: BatteryReading)
    requires
        !later.is_charging,
    ensures
        decision(later, state.applied(AlertTier::ShowCritical)) == AlertTier::Suppress,
        state.applied(AlertTier::ShowCritical).polled(later)
            == state.applied(AlertTier::ShowCritical),
{
}

/// Polling twice with the same reading never shows an alert the second
/// time: whatever the first round recorded suppresses the second.
pub proof fn second_poll_suppresses(reading: BatteryReading, state: AlertState)
    ensures
        decision(reading, state.polled(reading)) == AlertTier::Suppress,
        state.polled(reading).polled(reading) == state.polled(reading),
{
}

/// The latches move as the three-phase machine does: one round of
/// polling takes the phase of the state to the phase that `next` names.
pub proof fn polling_follows_phases(reading: BatteryReading, state: AlertState)
    ensures
        state.polled(reading).phase_of()
            == state.phase_of().next_of(reading, decision(reading, state)),
{
}

/// Opening a popup for a reading that the policy did not suppress sets
/// the latches just as recording the policy's answer does.
pub proof fn opening_records_the_decision(reading: BatteryReading, state: AlertState)
    requires
        decision(reading, state) != AlertTier::Suppress,
    ensures
        opened(state.observed(reading), reading).has_shown_low == state.polled(
            reading,
        ).has_shown_low,
        opened(state.observed(reading), reading).has_shown_critical == state.polled(
            reading,
        ).has_shown_critical,
        opened(state.observed(reading), reading).is_critical_confirmed == (decision(reading, state)
            == AlertTier::ShowCritical),
{
}

/// The critical phase ends only by charging: a reading that is not
/// charging leaves it in place.
pub proof fn critical_phase_is_terminal(reading: BatteryReading, state: AlertState)
    requires
        state.phase_of() == SuppressionPhase::CriticalShown,
        !reading.is_charging,
    ensures
        state.polled(reading).phase_of() == SuppressionPhase::CriticalShown,
{
}

/// After a charging reading the policy answers as if no alert had ever
/// been shown.
pub proof fn charging_rearms(charging: BatteryReading, state: AlertState, later: BatteryReading)
    requires
        charging.is_charging,
    ensures
        decision(later, state.polled(charging)) == decision(
            later,
            (AlertState { has_shown_low: false, has_shown_critical: false, ..state }),
        ),
{
}

} // verus!
