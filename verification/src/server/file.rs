//! Keeping the server's configuration in a file, and copying it.

use crate::config::profile::copied_text;
use crate::error::{AppError, AppResult};
use crate::persist::{FileRead, FileWrite};
use crate::server::{ServerConfig, ServerPeer};
use crate::text::{copied, text2, text4};
use vstd::prelude::*;

verus! {

/// Why the configuration was not loaded, if it was not.
pub open spec fn load_failure(read: FileRead<ServerConfig>) -> Option<Seq<char>> {
    match read {
        FileRead::NoPlace => Some("cannot determine config directory"@),
        FileRead::Missing => None,
        FileRead::Unreadable { path, error } => Some("failed to read "@ + path@ + ": "@ + error@),
        FileRead::Malformed { path, error } => Some(
            "failed to parse server.json at "@ + path@ + ": "@ + error@,
        ),
        FileRead::Found(_) => None,
    }
}

/// Why the configuration was not saved, if it was not.
pub open spec fn save_failure(write: FileWrite) -> Option<Seq<char>> {
    match write {
        FileWrite::NoPlace => Some("cannot determine config directory"@),
        FileWrite::NoDirectory { dir, error } => Some(
            "failed to create config dir "@ + dir@ + ": "@ + error@,
        ),
        FileWrite::Unserialized { error } => Some("failed to serialize server config: "@ + error@),
        FileWrite::Unwritten { path, error } => Some("failed to write "@ + path@ + ": "@ + error@),
        FileWrite::Unprotected { path: _, error } => Some(
            "failed to set permissions on server.json: "@ + error@,
        ),
        FileWrite::Unrenamed { from, to, error } => Some(
            "failed to rename "@ + from@ + " → "@ + to@ + ": "@ + error@,
        ),
        FileWrite::Written => None,
    }
}

/// Copies of client entries.
fn copied_peers(v: &Vec<ServerPeer>) -> (r: Vec<ServerPeer>)
    ensures
        crate::server::server_peer_views(r@) == crate::server::server_peer_views(v@),
{
    let mut out: Vec<ServerPeer> = Vec::new();
    let mut i: usize = 0;
    while i < v.len()
        invariant
            i <= v@.len(),
            out@.len() == i,
            forall|j: int| 0 <= j < i ==> (#[trigger] out@[j])@ == v@[j]@,
        decreases v@.len() - i,
    {
        out.push(v[i].duplicate());
        i += 1;
    }
    assert(crate::server::server_peer_views(out@) =~= crate::server::server_peer_views(v@));
    out
}

impl ServerPeer {
    /// A copy that says the same.
    pub fn duplicate(&self) -> (r: Self)
        ensures
            r@ == self@,
    {
        ServerPeer {
            name: self.name.clone(),
            public_key: self.public_key.clone(),
            private_key: copied_text(&self.private_key),
            assigned_ip: self.assigned_ip.clone(),
            preshared_key: copied_text(&self.preshared_key),
            client_allowed_ips: self.client_allowed_ips.clone(),
        }
    }
}

impl ServerConfig {
    /// A copy that says the same.
    pub fn duplicate(&self) -> (r: Self)
        ensures
            r@ == self@,
    {
        ServerConfig {
            name: self.name.clone(),
            private_key: self.private_key.clone(),
            public_key: self.public_key.clone(),
            listen_port: self.listen_port,
            address: self.address.clone(),
            subnet: self.subnet.clone(),
            endpoint_host: self.endpoint_host.clone(),
            dns: copied(&self.dns),
            egress_iface: copied_text(&self.egress_iface),
            peers: copied_peers(&self.peers),
        }
    }

    /// The configuration that reading its file gave: none where there is no file yet.
    pub fn load(read: FileRead<ServerConfig>) -> (r: AppResult<Option<Self>>)
        ensures
            match read {
                FileRead::Found(c) => r == Ok::<Option<ServerConfig>, AppError>(Some(c)),
                FileRead::Missing => r matches Ok(None),
                _ => r matches Err(AppError::ProfileIo(t)) && load_failure(read) == Some(t@),
            },
    {
        let t = match read {
            FileRead::Found(c) => {
                return Ok(Some(c));
            },
            FileRead::Missing => {
                return Ok(None);
            },
            FileRead::NoPlace => "cannot determine config directory".to_owned(),
            FileRead::Unreadable { path, error } => {
                text4("failed to read ", path.as_str(), ": ", error.as_str())
            },
            FileRead::Malformed { path, error } => {
                text4("failed to parse server.json at ", path.as_str(), ": ", error.as_str())
            },
        };
        Err(AppError::ProfileIo(t))
    }

    /// The result of saving a configuration.
    pub fn save(write: FileWrite) -> (r: AppResult<()>)
        ensures
            match r {
                Ok(()) => write is Written,
                Err(AppError::ProfileIo(t)) => save_failure(write) == Some(t@),
                Err(_) => false,
            },
    {
        let t = match write {
            FileWrite::Written => {
                return Ok(());
            },
            FileWrite::NoPlace => "cannot determine config directory".to_owned(),
            FileWrite::NoDirectory { dir, error } => {
                text4("failed to create config dir ", dir.as_str(), ": ", error.as_str())
            },
            FileWrite::Unserialized { error } => {
                text2("failed to serialize server config: ", error.as_str())
            },
            FileWrite::Unwritten { path, error } => {
                text4("failed to write ", path.as_str(), ": ", error.as_str())
            },
            FileWrite::Unprotected { path: _, error } => {
                text2("failed to set permissions on server.json: ", error.as_str())
            },
            FileWrite::Unrenamed { from, to, error } => {
                let mut t = text4("failed to rename ", from.as_str(), " → ", to.as_str());
                t.push_str(": ");
                t.push_str(error.as_str());
                t
            },
        };
        Err(AppError::ProfileIo(t))
    }
}

} // verus!
