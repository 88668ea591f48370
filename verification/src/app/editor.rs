//! Editing a profile field by field.

use crate::app::{EditorField, EditorState};
use crate::config::profile::{push_items, PeerSection};
use crate::text::{find_text, parse_u16, rsplit_once, trim};
use vstd::prelude::*;
use vstd::string::*;

verus! {

/// Splits a text at its commas into the parts that are not blank, without the white space around
/// them.
pub fn split_csv(s: &str) -> (r: Vec<String>)
    ensures
        crate::text::views(r@) == crate::config::profile::list_items(s@),
{
    let mut out: Vec<String> = Vec::new();
    let ghost before = crate::text::views(out@);
    push_items(&mut out, s);
    assert(before + crate::config::profile::list_items(s@)
        =~= crate::config::profile::list_items(s@));
    out
}

/// The number that fits 16 bits in a text, not counting white space around it.
pub open spec fn port_value(s: Seq<char>) -> Option<u16> {
    match crate::text::unsigned_value(crate::text::trimmed(s), u16::MAX as nat) {
        Some(n) => Some(n as u16),
        None => None,
    }
}

/// Reads a number that fits 16 bits from a text; `None` where there is none.
pub fn parse_opt_u16(s: &str) -> (r: Option<u16>)
    ensures
        r == port_value(s@),
{
    parse_u16(trim(s))
}

/// The text before and behind the first `p` in `s`.
pub open spec fn cut_text(s: Seq<char>, p: Seq<char>) -> Option<(Seq<char>, Seq<char>)> {
    if crate::text::occurs(s, p) {
        let i = crate::config::validate::before_text(s, p).len() as int;
        Some((s.take(i), s.skip(i + p.len())))
    } else {
        None
    }
}

/// The text before and behind the first `p` in `s`.
fn split_text_once<'a>(s: &'a str, p: &str) -> (r: Option<(&'a str, &'a str)>)
    requires
        p@.len() > 0,
    ensures
        match r {
            Some((a, b)) => cut_text(s@, p@) == Some((a@, b@)),
            None => cut_text(s@, p@) is None,
        },
{
    match find_text(s, p) {
        Some(i) => {
            let n: usize = s.unicode_len();
            let m: usize = p.unicode_len();
            let a = s.substring_char(0, i);
            let b = s.substring_char(i + m, n);
            proof {
                assert(crate::text::occurs_at(s@, p@, i as int));
                crate::config::validate::lemma_before_text(s@, p@, i as int);
                assert(a@ =~= s@.take(i as int));
                assert(b@ =~= s@.skip(i + p@.len()));
            }
            Some((a, b))
        },
        None => None,
    }
}

/// The host and the port of an endpoint `host:port` or `[host]:port`. The host is not empty, and
/// the port is a number that fits 16 bits.
pub open spec fn endpoint_parts(endpoint: Seq<char>) -> Option<(Seq<char>, u16)> {
    let ep = crate::text::trimmed(endpoint);
    let cut = if ep.len() > 0 && ep[0] == '[' {
        cut_text(ep.skip(1), "]:"@)
    } else {
        crate::text::cut_last(ep, ':')
    };
    match cut {
        Some((host, port)) => match port_value(port) {
            Some(n) => if host.len() > 0 {
                Some((host, n))
            } else {
                None
            },
            None => None,
        },
        None => None,
    }
}

/// The host and the port of an endpoint. The host is given as it stands; no name is looked up.
pub fn split_endpoint(endpoint: &str) -> (r: Option<(String, u16)>)
    ensures
        match r {
            Some((host, port)) => endpoint_parts(endpoint@) == Some((host@, port)),
            None => endpoint_parts(endpoint@) is None,
        },
{
    let ep = trim(endpoint);
    proof {
        reveal_strlit("]:");
    }
    let bracketed = !ep.is_empty() && ep.get_char(0) == '[';
    let cut = if bracketed {
        let n: usize = ep.unicode_len();
        let rest = ep.substring_char(1, n);
        assert(rest@ =~= ep@.skip(1));
        split_text_once(rest, "]:")
    } else {
        rsplit_once(ep, ':')
    };
    match cut {
        Some((host, port_part)) => match parse_opt_u16(port_part) {
            Some(port) => {
                if host.is_empty() {
                    return None;
                }
                Some((host.to_owned(), port))
            },
            None => None,
        },
        None => None,
    }
}

// ── changes ─────────────────────────────────────────────────────────────────

/// A text that is only there where it is not blank.
pub open spec fn unless_blank(v: Seq<char>) -> Option<Seq<char>> {
    if crate::text::trimmed(v).len() == 0 {
        None
    } else {
        Some(v)
    }
}

/// The editor with the interface section of its draft changed.
pub open spec fn with_interface(
    e: crate::app::EditorModel,
    interface: crate::config::profile::InterfaceModel,
) -> crate::app::EditorModel {
    crate::app::EditorModel {
        draft: crate::config::profile::ProfileModel { interface, ..e.draft },
        ..e
    }
}

/// The editor with the peers of its draft changed.
pub open spec fn with_peers(
    e: crate::app::EditorModel,
    peers: Seq<crate::config::profile::PeerModel>,
) -> crate::app::EditorModel {
    crate::app::EditorModel {
        draft: crate::config::profile::ProfileModel { peers, ..e.draft },
        ..e
    }
}

/// The editor after a change to a field of peer number `i`; there is none where there is no such
/// peer.
pub open spec fn edited_peer(
    e: crate::app::EditorModel,
    i: int,
    change: spec_fn(crate::config::profile::PeerModel) -> crate::config::profile::PeerModel,
) -> crate::app::EditorModel {
    if 0 <= i < e.draft.peers.len() {
        with_peers(e, e.draft.peers.update(i, change(e.draft.peers[i])))
    } else {
        e
    }
}

/// The editor after a change to a field.
pub open spec fn edited(e: crate::app::EditorModel, field: EditorField) -> crate::app::EditorModel {
    let items = |v: String| crate::config::profile::list_items(v@);
    match field {
        EditorField::ProfileName(v) => crate::app::EditorModel {
            profile_name: v@,
            draft: crate::config::profile::ProfileModel { name: v@, ..e.draft },
            ..e
        },
        EditorField::PrivateKey(v) => with_interface(
            e,
            crate::config::profile::InterfaceModel { private_key: v@, ..e.draft.interface },
        ),
        EditorField::Address(v) => with_interface(
            e,
            crate::config::profile::InterfaceModel { address: items(v), ..e.draft.interface },
        ),
        EditorField::Dns(v) => with_interface(
            e,
            crate::config::profile::InterfaceModel { dns: items(v), ..e.draft.interface },
        ),
        EditorField::ListenPort(v) => with_interface(
            e,
            crate::config::profile::InterfaceModel {
                listen_port: port_value(v@),
                ..e.draft.interface
            },
        ),
        EditorField::Mtu(v) => with_interface(
            e,
            crate::config::profile::InterfaceModel { mtu: port_value(v@), ..e.draft.interface },
        ),
        EditorField::PeerPublicKey(i, v) => edited_peer(
            e,
            i as int,
            |p: crate::config::profile::PeerModel| crate::config::profile::PeerModel {
                public_key: v@,
                ..p
            },
        ),
        EditorField::PeerPresharedKey(i, v) => edited_peer(
            e,
            i as int,
            |p: crate::config::profile::PeerModel| crate::config::profile::PeerModel {
                preshared_key: unless_blank(v@),
                ..p
            },
        ),
        EditorField::PeerEndpoint(i, v) => edited_peer(
            e,
            i as int,
            |p: crate::config::profile::PeerModel| crate::config::profile::PeerModel {
                endpoint: unless_blank(v@),
                ..p
            },
        ),
        EditorField::PeerAllowedIps(i, v) => edited_peer(
            e,
            i as int,
            |p: crate::config::profile::PeerModel| crate::config::profile::PeerModel {
                allowed_ips: items(v),
                ..p
            },
        ),
        EditorField::PeerKeepalive(i, v) => edited_peer(
            e,
            i as int,
            |p: crate::config::profile::PeerModel| crate::config::profile::PeerModel {
                persistent_keepalive: port_value(v@),
                ..p
            },
        ),
        EditorField::AddPeer => with_peers(
            e,
            e.draft.peers.push(crate::config::profile::empty_peer()),
        ),
        EditorField::RemovePeer(i) => if i < e.draft.peers.len() {
            with_peers(e, e.draft.peers.remove(i as int))
        } else {
            e
        },
    }
}

/// A text, where it is not blank.
fn filled(v: String) -> (r: Option<String>)
    ensures
        crate::config::profile::opt_view(r) == unless_blank(v@),
{
    if trim(v.as_str()).is_empty() {
        None
    } else {
        Some(v)
    }
}

/// Takes a change to a field of the draft. Nothing else of the editor changes.
pub fn apply_editor_field(editor: &mut EditorState, field: EditorField)
    ensures
        final(editor)@ == edited(old(editor)@, field),
{
    match field {
        EditorField::ProfileName(v) => {
            editor.profile_name = v.clone();
            editor.draft.name = v;
        },
        EditorField::PrivateKey(v) => {
            editor.draft.interface.private_key = v;
        },
        EditorField::Address(v) => {
            editor.draft.interface.address = split_csv(v.as_str());
        },
        EditorField::Dns(v) => {
            editor.draft.interface.dns = split_csv(v.as_str());
        },
        EditorField::ListenPort(v) => {
            editor.draft.interface.listen_port = parse_opt_u16(v.as_str());
        },
        EditorField::Mtu(v) => {
            editor.draft.interface.mtu = parse_opt_u16(v.as_str());
        },
        EditorField::PeerPublicKey(i, v) => {
            if i < editor.draft.peers.len() {
                editor.draft.peers[i].public_key = v;
            }
        },
        EditorField::PeerPresharedKey(i, v) => {
            if i < editor.draft.peers.len() {
                editor.draft.peers[i].preshared_key = filled(v);
            }
        },
        EditorField::PeerEndpoint(i, v) => {
            if i < editor.draft.peers.len() {
                editor.draft.peers[i].endpoint = filled(v);
            }
        },
        EditorField::PeerAllowedIps(i, v) => {
            if i < editor.draft.peers.len() {
                editor.draft.peers[i].allowed_ips = split_csv(v.as_str());
            }
        },
        EditorField::PeerKeepalive(i, v) => {
            if i < editor.draft.peers.len() {
                editor.draft.peers[i].persistent_keepalive = parse_opt_u16(v.as_str());
            }
        },
        EditorField::AddPeer => {
            editor.draft.peers.push(PeerSection::default());
        },
        EditorField::RemovePeer(i) => {
            if i < editor.draft.peers.len() {
                editor.draft.peers.remove(i);
            }
        },
    }
    assert(editor@.draft.peers =~= edited(old(editor)@, field).draft.peers);
}

} // verus!
