//! The kill switch: the commands that arm and lift it.

use crate::net::privilege::PrivCmd;
use vstd::prelude::*;

verus! {

/// Builds the commands that arm and lift the kill switch.
pub struct KillSwitch;

impl KillSwitch {
    /// The command that arms the kill switch for `iface` and the endpoint of its peer, leaves
    /// `lan_cidrs` reachable, and lets it lapse after `lease_secs` seconds.
    pub fn arm(
        &self,
        iface: String,
        endpoint_ip: String,
        endpoint_port: u16,
        lan_cidrs: Vec<String>,
        lease_secs: u64,
        netns_endpoint_udp: Option<(String, u16)>,
    ) -> (r: PrivCmd)
        ensures
            r == (PrivCmd::KillSwitchArm {
                iface,
                endpoint_ip,
                endpoint_port,
                lan_cidrs,
                lease_secs,
                netns_endpoint_udp,
            }),
    {
        PrivCmd::KillSwitchArm {
            iface,
            endpoint_ip,
            endpoint_port,
            lan_cidrs,
            lease_secs,
            netns_endpoint_udp,
        }
    }

    /// The command that lifts the kill switch.
    pub fn disarm(&self) -> (r: PrivCmd)
        ensures
            r is KillSwitchDisarm,
    {
        PrivCmd::KillSwitchDisarm
    }
}

} // verus!
