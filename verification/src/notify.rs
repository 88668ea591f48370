//! The wording of desktop notifications.

use vstd::prelude::*;

verus! {

/// The notification that the tunnel is up: its summary and its body.
pub fn fmt_connected(name: &str) -> (r: (String, String))
    ensures
        r.0@ == "WireGuard connected"@,
        r.1@ == "Connected to "@ + name@,
{
    let mut body = "Connected to ".to_owned();
    body.push_str(name);
    ("WireGuard connected".to_owned(), body)
}

/// The notification that the user disconnected.
pub fn fmt_disconnected(name: &str) -> (r: (String, String))
    ensures
        r.0@ == "WireGuard disconnected"@,
        r.1@ == "Disconnected from "@ + name@,
{
    let mut body = "Disconnected from ".to_owned();
    body.push_str(name);
    ("WireGuard disconnected".to_owned(), body)
}

/// The notification that the tunnel dropped by itself.
pub fn fmt_dropped(name: &str) -> (r: (String, String))
    ensures
        r.0@ == "WireGuard tunnel dropped"@,
        r.1@ == "Lost connection to "@ + name@,
{
    let mut body = "Lost connection to ".to_owned();
    body.push_str(name);
    ("WireGuard tunnel dropped".to_owned(), body)
}

// ── laws ────────────────────────────────────────────────────────────────────

/// Each notification says what happened, and to which profile.
pub proof fn law_notifications_say_what_happened(
    name: &str,
    up: (String, String),
    down: (String, String),
    lost: (String, String),
)
    requires
        call_ensures(fmt_connected, (name,), up),
        call_ensures(fmt_disconnected, (name,), down),
        call_ensures(fmt_dropped, (name,), lost),
    ensures
        up.0@ == "WireGuard connected"@ && up.1@ == "Connected to "@ + name@,
        down.0@ == "WireGuard disconnected"@ && down.1@ == "Disconnected from "@ + name@,
        lost.0@ == "WireGuard tunnel dropped"@ && lost.1@ == "Lost connection to "@ + name@,
{
}

} // verus!
