//! Data usage.

use wireguard_gui::stats::{human_bytes, UsageStore};

#[test]
fn human_bytes_zero() {
    assert_eq!(human_bytes(0), "0 B");
}

#[test]
fn human_bytes_just_below_kib() {
    assert_eq!(human_bytes(1023), "1023 B");
}

#[test]
fn human_bytes_exactly_kib() {
    assert_eq!(human_bytes(1024), "1.00 KiB");
}

#[test]
fn human_bytes_fractional_kib() {
    assert_eq!(human_bytes(1536), "1.50 KiB");
}

#[test]
fn human_bytes_exactly_mib() {
    assert_eq!(human_bytes(1_048_576), "1.00 MiB");
}

#[test]
fn human_bytes_exactly_gib() {
    assert_eq!(human_bytes(1_073_741_824), "1.00 GiB");
}

#[test]
fn human_bytes_exactly_tib() {
    assert_eq!(human_bytes(1_099_511_627_776), "1.00 TiB");
}

#[test]
fn human_bytes_large_value() {
    assert_eq!(human_bytes(2_684_354_560), "2.50 GiB");
}

#[test]
fn first_reading_is_baseline_no_traffic_counted() {
    let mut store = UsageStore::default();
    let u = store.record("home", 100, 200);
    assert_eq!(u.session_rx, 0);
    assert_eq!(u.session_tx, 0);
    assert_eq!(u.total_rx, 0);
    assert_eq!(u.total_tx, 0);
    assert_eq!(store.last_seen.get("home"), Some(&(100, 200)));
}

#[test]
fn second_reading_accumulates_delta() {
    let mut store = UsageStore::default();
    store.record("home", 100, 200);
    let u = store.record("home", 150, 260);
    assert_eq!(u.session_rx, 50);
    assert_eq!(u.session_tx, 60);
    assert_eq!(u.total_rx, 50);
    assert_eq!(u.total_tx, 60);
}

#[test]
fn three_monotonic_readings_accumulate_correctly() {
    let mut store = UsageStore::default();
    store.record("home", 1000, 2000);
    store.record("home", 1100, 2100);
    let u = store.record("home", 1250, 2300);
    assert_eq!(u.session_rx, 250);
    assert_eq!(u.session_tx, 300);
    assert_eq!(u.total_rx, 250);
    assert_eq!(u.total_tx, 300);
}

#[test]
fn zero_delta_reading_leaves_totals_unchanged() {
    let mut store = UsageStore::default();
    store.record("home", 500, 1000);
    let u1 = store.record("home", 600, 1100);
    let u2 = store.record("home", 600, 1100);
    assert_eq!(u1.total_rx, u2.total_rx);
    assert_eq!(u1.total_tx, u2.total_tx);
}

#[test]
fn counter_reset_on_rx_regression_resets_session_and_baseline() {
    let mut store = UsageStore::default();
    store.record("home", 100, 200);
    store.record("home", 150, 260);

    let u = store.record("home", 10, 400);
    assert_eq!(u.session_rx, 0);
    assert_eq!(u.session_tx, 0);
    assert_eq!(u.total_rx, 50);
    assert_eq!(u.total_tx, 60);
    assert_eq!(store.last_seen.get("home"), Some(&(10, 400)));
}

#[test]
fn counter_reset_on_tx_regression_resets_session_and_baseline() {
    let mut store = UsageStore::default();
    store.record("work", 0, 0);
    store.record("work", 200, 300);

    let u = store.record("work", 250, 10);
    assert_eq!(u.session_rx, 0);
    assert_eq!(u.session_tx, 0);
    assert_eq!(u.total_rx, 200);
    assert_eq!(u.total_tx, 300);
}

#[test]
fn traffic_after_counter_reset_accumulates_in_new_session() {
    let mut store = UsageStore::default();
    store.record("home", 500, 1000);
    store.record("home", 600, 1100);

    store.record("home", 0, 0);

    let u = store.record("home", 50, 80);
    assert_eq!(u.session_rx, 50);
    assert_eq!(u.session_tx, 80);
    assert_eq!(u.total_rx, 150);
    assert_eq!(u.total_tx, 180);
}

#[test]
fn per_profile_isolation() {
    let mut store = UsageStore::default();
    store.record("home", 0, 0);
    store.record("home", 100, 100);
    store.record("work", 0, 0);
    store.record("work", 5, 5);
    assert_eq!(store.get("home").unwrap().total_rx, 100);
    assert_eq!(store.get("work").unwrap().total_rx, 5);
}

#[test]
fn reset_session_zeroes_session_keeps_total() {
    let mut store = UsageStore::default();
    store.record("home", 0, 0);
    store.record("home", 100, 200);
    store.reset_session("home");
    let u = store.get("home").unwrap().clone();
    assert_eq!(u.session_rx, 0);
    assert_eq!(u.session_tx, 0);
    assert_eq!(u.total_rx, 100);
    assert_eq!(u.total_tx, 200);
    assert!(!store.last_seen.contains_key("home"));
}

#[test]
fn reset_session_followed_by_record_starts_clean_session() {
    let mut store = UsageStore::default();
    store.record("home", 0, 0);
    store.record("home", 150, 260);
    store.reset_session("home");

    let u1 = store.record("home", 200, 320);
    assert_eq!(u1.session_rx, 0);
    assert_eq!(u1.session_tx, 0);

    let u2 = store.record("home", 280, 400);
    assert_eq!(u2.session_rx, 80);
    assert_eq!(u2.session_tx, 80);
    assert_eq!(u2.total_rx, 230);
    assert_eq!(u2.total_tx, 340);
}

#[test]
fn reset_session_on_unknown_profile_is_noop() {
    let mut store = UsageStore::default();
    store.reset_session("does-not-exist");
    assert!(store.usage.is_empty());
}
