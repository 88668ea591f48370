//! Deciding when to reconnect, and how long to wait before it.

use std::time::Duration;

use vstd::prelude::*;

verus! {

/// The age of a handshake, in seconds, from which a tunnel counts as dropped.
pub const DEFAULT_THRESHOLD_SECS: u64 = 150;

/// The wait before the first attempt, in seconds.
pub const BACKOFF_BASE_SECS: u64 = 2;

/// The longest wait, in seconds.
pub const BACKOFF_CAP_SECS: u64 = 60;

/// The `Duration` of a number of seconds.
pub uninterp spec fn duration_secs(secs: u64) -> Duration;

/// `Duration::from_secs` makes the duration of a number of seconds.
pub assume_specification[ std::time::Duration::from_secs ](secs: u64) -> (r: std::time::Duration)
    ensures
        r == duration_secs(secs),
;

/// Whether a tunnel has dropped: its interface is gone, or it never had a handshake, or the last
/// one is too old.
pub open spec fn dropped(age: Option<u64>, iface_present: bool, threshold_secs: u64) -> bool {
    !iface_present || match age {
        None => true,
        Some(a) => a >= threshold_secs,
    }
}

/// Whether to reconnect: the tunnel has dropped, and not because the user took it down.
pub fn should_reconnect(
    last_handshake_age_secs: Option<u64>,
    iface_present: bool,
    intentional_down: bool,
    threshold_secs: u64,
) -> (r: bool)
    ensures
        r == (!intentional_down && dropped(last_handshake_age_secs, iface_present, threshold_secs)),
{
    if intentional_down {
        return false;
    }
    if !iface_present {
        return true;
    }
    match last_handshake_age_secs {
        None => true,
        Some(age) => age >= threshold_secs,
    }
}

/// The wait before attempt number `attempt`, in seconds: 2, doubled for each attempt before it,
/// and at most 60.
pub open spec fn backoff_secs(attempt: nat) -> nat
    decreases attempt,
{
    if attempt == 0 {
        BACKOFF_BASE_SECS as nat
    } else {
        let twice = 2 * backoff_secs((attempt - 1) as nat);
        if twice <= BACKOFF_CAP_SECS {
            twice
        } else {
            BACKOFF_CAP_SECS as nat
        }
    }
}

/// The wait before attempt number `attempt`, in seconds.
pub fn next_backoff_secs(attempt: u32) -> (r: u64)
    ensures
        r == backoff_secs(attempt as nat),
{
    let mut secs: u64 = BACKOFF_BASE_SECS;
    let mut i: u32 = 0;
    while i < attempt && secs < BACKOFF_CAP_SECS
        invariant
            i <= attempt,
            secs == backoff_secs(i as nat),
            secs <= BACKOFF_CAP_SECS,
        decreases attempt - i,
    {
        secs = if 2 * secs <= BACKOFF_CAP_SECS {
            2 * secs
        } else {
            BACKOFF_CAP_SECS
        };
        i += 1;
    }
    proof {
        lemma_backoff_stays(i as nat, attempt as nat);
    }
    secs
}

/// The wait before attempt number `attempt`.
pub fn next_backoff(attempt: u32) -> (r: Duration)
    ensures
        r == duration_secs(backoff_secs(attempt as nat) as u64),
{
    Duration::from_secs(next_backoff_secs(attempt))
}

/// Once the longest wait is reached it stays.
proof fn lemma_backoff_stays(i: nat, n: nat)
    requires
        i <= n,
        i < n ==> backoff_secs(i) == BACKOFF_CAP_SECS,
    ensures
        backoff_secs(n) == backoff_secs(i),
    decreases n,
{
    if i < n {
        lemma_backoff_stays(i, (n - 1) as nat);
    }
}

/// The waits never get shorter, and are never below the first nor above the longest.
pub proof fn law_backoff_grows_to_the_cap(a: nat, b: nat)
    requires
        a <= b,
    ensures
        BACKOFF_BASE_SECS <= backoff_secs(a) <= backoff_secs(b) <= BACKOFF_CAP_SECS,
    decreases b,
{
    if a < b {
        law_backoff_grows_to_the_cap(a, (b - 1) as nat);
    } else if b > 0 {
        law_backoff_grows_to_the_cap((b - 1) as nat, (b - 1) as nat);
    }
}

/// The schedule: 2, 4, 8, 16, 32, and 60 from then on.
pub proof fn law_backoff_schedule(n: nat)
    requires
        n >= 5,
    ensures
        backoff_secs(0) == 2,
        backoff_secs(1) == 4,
        backoff_secs(2) == 8,
        backoff_secs(3) == 16,
        backoff_secs(4) == 32,
        backoff_secs(n) == 60,
{
    reveal_with_fuel(backoff_secs, 6);
    lemma_backoff_stays(5, n);
}

} // verus!
