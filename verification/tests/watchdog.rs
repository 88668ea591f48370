//! Reconnecting.

use std::time::Duration;
use wireguard_gui::net::watchdog::{
    next_backoff, should_reconnect, BACKOFF_BASE_SECS, BACKOFF_CAP_SECS, DEFAULT_THRESHOLD_SECS,
};

#[test]
fn intentional_down_suppresses_even_when_iface_missing() {
    assert!(!should_reconnect(None, false, true, DEFAULT_THRESHOLD_SECS));
}

#[test]
fn intentional_down_suppresses_stale_handshake() {
    assert!(!should_reconnect(Some(9999), true, true, DEFAULT_THRESHOLD_SECS));
}

#[test]
fn intentional_down_suppresses_fresh_handshake_too() {
    assert!(!should_reconnect(Some(0), true, true, DEFAULT_THRESHOLD_SECS));
}

#[test]
fn missing_iface_triggers_reconnect() {
    assert!(should_reconnect(None, false, false, DEFAULT_THRESHOLD_SECS));
}

#[test]
fn missing_iface_with_stale_handshake_triggers_reconnect() {
    assert!(should_reconnect(Some(999), false, false, DEFAULT_THRESHOLD_SECS));
}

#[test]
fn missing_iface_with_fresh_handshake_still_triggers_reconnect() {
    assert!(should_reconnect(Some(1), false, false, DEFAULT_THRESHOLD_SECS));
}

#[test]
fn no_handshake_ever_triggers_reconnect() {
    assert!(should_reconnect(None, true, false, DEFAULT_THRESHOLD_SECS));
}

#[test]
fn stale_handshake_exactly_at_threshold_triggers_reconnect() {
    assert!(should_reconnect(
        Some(DEFAULT_THRESHOLD_SECS),
        true,
        false,
        DEFAULT_THRESHOLD_SECS
    ));
}

#[test]
fn stale_handshake_above_threshold_triggers_reconnect() {
    assert!(should_reconnect(
        Some(DEFAULT_THRESHOLD_SECS + 1),
        true,
        false,
        DEFAULT_THRESHOLD_SECS
    ));
}

#[test]
fn very_old_handshake_triggers_reconnect() {
    assert!(should_reconnect(Some(86400), true, false, DEFAULT_THRESHOLD_SECS));
}

#[test]
fn fresh_handshake_does_not_trigger_reconnect() {
    assert!(!should_reconnect(
        Some(DEFAULT_THRESHOLD_SECS - 1),
        true,
        false,
        DEFAULT_THRESHOLD_SECS
    ));
}

#[test]
fn very_fresh_handshake_does_not_trigger_reconnect() {
    assert!(!should_reconnect(Some(0), true, false, DEFAULT_THRESHOLD_SECS));
}

#[test]
fn handshake_at_one_second_does_not_trigger_reconnect() {
    assert!(!should_reconnect(Some(1), true, false, DEFAULT_THRESHOLD_SECS));
}

#[test]
fn custom_threshold_respected_low() {
    assert!(!should_reconnect(Some(29), true, false, 30));
}

#[test]
fn custom_threshold_respected_at_boundary() {
    assert!(should_reconnect(Some(30), true, false, 30));
}

#[test]
fn custom_threshold_zero_always_reconnects() {
    assert!(should_reconnect(Some(0), true, false, 0));
    assert!(should_reconnect(Some(1), true, false, 0));
}

#[test]
fn custom_threshold_very_large_never_triggers_on_fresh_handshake() {
    assert!(!should_reconnect(Some(1_000_000), true, false, u64::MAX));
}

#[test]
fn backoff_attempt_0_is_2s() {
    assert_eq!(next_backoff(0), Duration::from_secs(2));
}

#[test]
fn backoff_attempt_1_is_4s() {
    assert_eq!(next_backoff(1), Duration::from_secs(4));
}

#[test]
fn backoff_attempt_2_is_8s() {
    assert_eq!(next_backoff(2), Duration::from_secs(8));
}

#[test]
fn backoff_attempt_3_is_16s() {
    assert_eq!(next_backoff(3), Duration::from_secs(16));
}

#[test]
fn backoff_attempt_4_is_32s() {
    assert_eq!(next_backoff(4), Duration::from_secs(32));
}

#[test]
fn backoff_attempt_5_hits_cap_60s() {
    assert_eq!(next_backoff(5), Duration::from_secs(60));
}

#[test]
fn backoff_attempt_6_stays_at_cap() {
    assert_eq!(next_backoff(6), Duration::from_secs(60));
}

#[test]
fn backoff_large_attempt_stays_at_cap() {
    assert_eq!(next_backoff(100), Duration::from_secs(60));
}

#[test]
fn backoff_max_u32_does_not_overflow() {
    assert_eq!(next_backoff(u32::MAX), Duration::from_secs(BACKOFF_CAP_SECS));
}

#[test]
fn backoff_schedule_is_monotone_until_cap() {
    let schedule: Vec<u64> =
        (0u32..=8).map(|a| next_backoff(a).as_secs()).collect();
    for window in schedule.windows(2) {
        assert!(
            window[1] >= window[0],
            "back-off is not monotone: {:?}",
            schedule
        );
    }
}

#[test]
fn backoff_schedule_caps_at_60s() {
    for attempt in 5..=20 {
        assert_eq!(
            next_backoff(attempt),
            Duration::from_secs(60),
            "attempt {attempt} exceeded cap"
        );
    }
}

#[test]
fn intentional_down_overrides_all_combinations() {
    let ages: &[Option<u64>] = &[None, Some(0), Some(1), Some(150), Some(u64::MAX)];
    let presents = [true, false];
    for &age in ages {
        for &present in &presents {
            assert!(
                !should_reconnect(age, present, true, DEFAULT_THRESHOLD_SECS),
                "intentional_down=true should always return false \
                 (age={age:?}, present={present})"
            );
        }
    }
}

#[test]
fn missing_iface_always_reconnects_when_not_intentional() {
    let ages: &[Option<u64>] = &[None, Some(0), Some(1), Some(150), Some(u64::MAX)];
    for &age in ages {
        assert!(
            should_reconnect(age, false, false, DEFAULT_THRESHOLD_SECS),
            "missing iface should always reconnect (age={age:?})"
        );
    }
}
