use battery_alert::policy::AlertState;
use battery_alert::policy::AlertTier;
use battery_alert::policy::SuppressionPhase;
use battery_alert::reading::BatteryReading;
use battery_alert::reading::CRITICAL_THRESHOLD;
use battery_alert::reading::LOW_THRESHOLD;
use battery_alert::reading::UNKNOWN_LEVEL;

fn poll(state: &mut AlertState, level: i32, is_charging: bool) -> AlertTier {
    let tier = state.decide(BatteryReading::new(level, is_charging));
    state.apply(tier);
    tier
}

#[test]
fn thresholds_are_twenty_and_ten() {
    assert_eq!(LOW_THRESHOLD, 20);
    assert_eq!(CRITICAL_THRESHOLD, 10);
    assert_eq!(UNKNOWN_LEVEL, -1);
    assert!(CRITICAL_THRESHOLD < LOW_THRESHOLD);
}

#[test]
fn new_state_is_idle() {
    let state = AlertState::new();
    assert!(!state.has_shown_low);
    assert!(!state.has_shown_critical);
    assert!(!state.is_critical_confirmed);
    assert_eq!(state.phase(), SuppressionPhase::Idle);
}

#[test]
fn charging_suppresses_and_clears_both_latches() {
    for level in [-1, 0, 5, 10, 11, 20, 21, 100] {
        for (low, critical) in [(false, false), (true, false), (false, true), (true, true)] {
            let mut state = AlertState {
                has_shown_low: low,
                has_shown_critical: critical,
                is_critical_confirmed: false,
            };
            let tier = state.decide(BatteryReading::new(level, true));
            assert_eq!(tier, AlertTier::Suppress);
            assert!(!state.has_shown_low);
            assert!(!state.has_shown_critical);
            assert_eq!(state.phase(), SuppressionPhase::Idle);
        }
    }
}

#[test]
fn charging_leaves_the_confirmation_alone() {
    let mut state =
        AlertState { has_shown_low: true, has_shown_critical: true, is_critical_confirmed: true };
    assert_eq!(state.decide(BatteryReading::new(50, true)), AlertTier::Suppress);
    assert!(state.is_critical_confirmed);
}

#[test]
fn low_band_shows_low_and_sets_the_low_latch() {
    for level in 11..=20 {
        let mut state = AlertState::new();
        let tier = state.decide(BatteryReading::new(level, false));
        assert_eq!(tier, AlertTier::ShowLow);
        assert_eq!(state, AlertState::new());
        state.apply(tier);
        assert!(state.has_shown_low);
        assert!(!state.has_shown_critical);
        assert_eq!(state.phase(), SuppressionPhase::LowShown);
    }
}

#[test]
fn above_low_threshold_nothing_is_shown() {
    for level in [21, 50, 100] {
        let mut state = AlertState::new();
        assert_eq!(poll(&mut state, level, false), AlertTier::Suppress);
        assert_eq!(state, AlertState::new());
    }
}

#[test]
fn threshold_edges() {
    assert_eq!(poll(&mut AlertState::new(), 21, false), AlertTier::Suppress);
    assert_eq!(poll(&mut AlertState::new(), 20, false), AlertTier::ShowLow);
    assert_eq!(poll(&mut AlertState::new(), 11, false), AlertTier::ShowLow);
    assert_eq!(poll(&mut AlertState::new(), 10, false), AlertTier::ShowCritical);
    assert_eq!(poll(&mut AlertState::new(), 0, false), AlertTier::ShowCritical);
}

#[test]
fn critical_level_shows_critical_whatever_the_low_latch() {
    for level in [-1, 0, 5, 10] {
        for low in [false, true] {
            let mut state = AlertState {
                has_shown_low: low,
                has_shown_critical: false,
                is_critical_confirmed: false,
            };
            assert_eq!(poll(&mut state, level, false), AlertTier::ShowCritical);
            assert!(state.has_shown_critical);
            assert!(state.has_shown_low);
            assert_eq!(state.phase(), SuppressionPhase::CriticalShown);
            for later in [-1, 5, 11, 15, 20, 21, 100] {
                assert_eq!(poll(&mut state, later, false), AlertTier::Suppress);
                assert_eq!(state.phase(), SuppressionPhase::CriticalShown);
            }
        }
    }
}

#[test]
fn second_poll_with_same_reading_is_suppressed() {
    for level in [-1, 5, 10, 11, 15, 20, 21, 80] {
        let mut state = AlertState::new();
        poll(&mut state, level, false);
        let after_first = state;
        assert_eq!(poll(&mut state, level, false), AlertTier::Suppress);
        assert_eq!(state, after_first);
    }
}

#[test]
fn charging_transition_shows_critical_again() {
    let mut state = AlertState::new();
    assert_eq!(poll(&mut state, 5, false), AlertTier::ShowCritical);
    assert_eq!(poll(&mut state, 5, true), AlertTier::Suppress);
    assert!(!state.has_shown_low);
    assert!(!state.has_shown_critical);
    assert_eq!(poll(&mut state, 5, false), AlertTier::ShowCritical);
}

#[test]
fn low_then_critical_then_recharge() {
    let mut state = AlertState::new();
    assert_eq!(poll(&mut state, 15, false), AlertTier::ShowLow);
    assert_eq!(poll(&mut state, 15, false), AlertTier::Suppress);
    assert_eq!(poll(&mut state, 8, false), AlertTier::ShowCritical);
    assert_eq!(poll(&mut state, 50, true), AlertTier::Suppress);
    assert!(!state.has_shown_low);
    assert!(!state.has_shown_critical);
    assert_eq!(poll(&mut state, 15, false), AlertTier::ShowLow);
}

#[test]
fn unknown_level_is_treated_as_critical() {
    let mut state = AlertState::new();
    assert_eq!(state.decide(BatteryReading::new(-1, false)), AlertTier::ShowCritical);
    let unknown = BatteryReading::unknown();
    assert_eq!(unknown.level, -1);
    assert!(!unknown.is_charging);
    assert!(unknown.is_critical());
    assert!(unknown.is_low());
}

#[test]
fn apply_suppress_records_nothing() {
    let mut state = AlertState::new();
    state.apply(AlertTier::Suppress);
    assert_eq!(state, AlertState::new());
}

#[test]
fn reading_tiers() {
    assert!(BatteryReading::new(10, false).is_critical());
    assert!(!BatteryReading::new(11, false).is_critical());
    assert!(BatteryReading::new(20, false).is_low());
    assert!(!BatteryReading::new(21, false).is_low());
}

#[test]
fn phases_follow_the_three_state_machine() {
    let quiet = BatteryReading::new(15, false);
    let charging = BatteryReading::new(15, true);
    let idle = SuppressionPhase::Idle;
    let low = SuppressionPhase::LowShown;
    let critical = SuppressionPhase::CriticalShown;
    assert_eq!(idle.next(quiet, AlertTier::ShowLow), low);
    assert_eq!(idle.next(quiet, AlertTier::ShowCritical), critical);
    assert_eq!(low.next(quiet, AlertTier::ShowCritical), critical);
    assert_eq!(idle.next(quiet, AlertTier::Suppress), idle);
    assert_eq!(low.next(quiet, AlertTier::Suppress), low);
    assert_eq!(low.next(quiet, AlertTier::ShowLow), low);
    for tier in [AlertTier::Suppress, AlertTier::ShowLow, AlertTier::ShowCritical] {
        assert_eq!(critical.next(quiet, tier), critical);
        for phase in [idle, low, critical] {
            assert_eq!(phase.next(charging, tier), idle);
        }
    }
}

#[test]
fn phase_of_the_state_moves_with_every_poll() {
    let mut state = AlertState::new();
    for (level, charging) in
        [(50, false), (15, false), (18, false), (9, false), (30, false), (30, true), (9, false)]
    {
        let reading = BatteryReading::new(level, charging);
        let before = state.phase();
        let tier = state.decide(reading);
        state.apply(tier);
        assert_eq!(state.phase(), before.next(reading, tier));
    }
    assert_eq!(state.phase(), SuppressionPhase::CriticalShown);
}
