//! Networking: the privilege boundary, network namespaces, the kill switch, connecting on boot.

pub mod allowed_ips;
pub mod boot;
pub mod killswitch;
pub mod laws;
pub mod netns;
pub mod privilege;
pub mod split;
pub mod watchdog;
