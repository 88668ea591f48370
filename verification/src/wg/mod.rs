//! The WireGuard tools on this host.

pub mod status;
pub mod status_laws;

use vstd::prelude::*;

verus! {

/// The kernel interface of the client tunnel.
pub const CLIENT_IFACE: &'static str = "wg-gui0";

} // verus!
