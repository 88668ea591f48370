//! Presets for what a profile routes through the tunnel.

use crate::config::profile::{copied_text, PeerModel, PeerSection, ProfileModel, WgProfile};
use crate::error::AppResult;
use crate::text::owned;
use vstd::prelude::*;

verus! {

/// What the peers of a profile are to route.
#[derive(Debug, Clone, PartialEq)]
pub enum AllowedIpsPreset {
    /// Everything.
    FullTunnel,
    /// Everything but the private ranges of RFC 1918.
    SplitExcludeRFC1918,
    /// The given networks.
    Custom(Vec<String>),
}

/// The networks of the split preset: all of IPv4 without the private ranges, in ascending order,
/// and all of IPv6.
pub open spec fn split_networks() -> Seq<Seq<char>> {
    seq![
        "0.0.0.0/5"@,
        "8.0.0.0/7"@,
        "11.0.0.0/8"@,
        "12.0.0.0/6"@,
        "16.0.0.0/4"@,
        "32.0.0.0/3"@,
        "64.0.0.0/2"@,
        "128.0.0.0/3"@,
        "160.0.0.0/5"@,
        "168.0.0.0/6"@,
        "172.0.0.0/12"@,
        "172.32.0.0/11"@,
        "172.64.0.0/10"@,
        "172.128.0.0/9"@,
        "173.0.0.0/8"@,
        "174.0.0.0/7"@,
        "176.0.0.0/4"@,
        "192.0.0.0/9"@,
        "192.128.0.0/11"@,
        "192.160.0.0/13"@,
        "192.169.0.0/16"@,
        "192.170.0.0/15"@,
        "192.172.0.0/14"@,
        "192.176.0.0/12"@,
        "192.192.0.0/10"@,
        "193.0.0.0/8"@,
        "194.0.0.0/7"@,
        "196.0.0.0/6"@,
        "200.0.0.0/5"@,
        "208.0.0.0/4"@,
        "224.0.0.0/3"@,
        "::/0"@,
    ]
}

/// The networks of the split preset.
pub fn split_exclude_rfc1918() -> (r: Vec<String>)
    ensures
        crate::text::views(r@) == split_networks(),
{
    let r = owned(
        vec![
            "0.0.0.0/5",
            "8.0.0.0/7",
            "11.0.0.0/8",
            "12.0.0.0/6",
            "16.0.0.0/4",
            "32.0.0.0/3",
            "64.0.0.0/2",
            "128.0.0.0/3",
            "160.0.0.0/5",
            "168.0.0.0/6",
            "172.0.0.0/12",
            "172.32.0.0/11",
            "172.64.0.0/10",
            "172.128.0.0/9",
            "173.0.0.0/8",
            "174.0.0.0/7",
            "176.0.0.0/4",
            "192.0.0.0/9",
            "192.128.0.0/11",
            "192.160.0.0/13",
            "192.169.0.0/16",
            "192.170.0.0/15",
            "192.172.0.0/14",
            "192.176.0.0/12",
            "192.192.0.0/10",
            "193.0.0.0/8",
            "194.0.0.0/7",
            "196.0.0.0/6",
            "200.0.0.0/5",
            "208.0.0.0/4",
            "224.0.0.0/3",
            "::/0",
        ],
    );
    assert(crate::text::views(r@) =~= split_networks());
    r
}

impl AllowedIpsPreset {
    /// The networks that the preset stands for.
    pub open spec fn networks(&self) -> Seq<Seq<char>> {
        match *self {
            AllowedIpsPreset::FullTunnel => seq!["0.0.0.0/0"@, "::/0"@],
            AllowedIpsPreset::SplitExcludeRFC1918 => split_networks(),
            AllowedIpsPreset::Custom(v) => crate::text::views(v@),
        }
    }

    /// The networks that the preset stands for.
    fn cidrs(&self) -> (r: Vec<String>)
        ensures
            crate::text::views(r@) == self.networks(),
    {
        match self {
            AllowedIpsPreset::FullTunnel => {
                let r = owned(vec!["0.0.0.0/0", "::/0"]);
                assert(crate::text::views(r@) =~= seq!["0.0.0.0/0"@, "::/0"@]);
                r
            },
            AllowedIpsPreset::SplitExcludeRFC1918 => split_exclude_rfc1918(),
            AllowedIpsPreset::Custom(v) => crate::text::copied(v),
        }
    }

    /// A short label.
    pub fn display_name(&self) -> (r: &'static str)
        ensures
            r@ == (match *self {
                AllowedIpsPreset::FullTunnel => "Full Tunnel"@,
                AllowedIpsPreset::SplitExcludeRFC1918 => "Split Tunnel (exclude RFC1918)"@,
                AllowedIpsPreset::Custom(_) => "Custom"@,
            }),
    {
        match self {
            AllowedIpsPreset::FullTunnel => "Full Tunnel",
            AllowedIpsPreset::SplitExcludeRFC1918 => "Split Tunnel (exclude RFC1918)",
            AllowedIpsPreset::Custom(_) => "Custom",
        }
    }

    /// A copy of `profile` in which every peer routes the networks of the preset. Nothing else
    /// changes.
    pub fn apply_to_profile(&self, profile: &WgProfile) -> (r: AppResult<WgProfile>)
        ensures
            r matches Ok(p) && p@ == routed_by(profile@, self.networks()),
    {
        let mut out = profile.duplicate();
        let cidrs = self.cidrs();
        let ghost before = out@;
        let n: usize = out.peers.len();
        let mut i: usize = 0;
        while i < n
            invariant
                i <= n == out.peers@.len(),
                out@.name == before.name,
                out@.interface == before.interface,
                out@.path == before.path,
                before.peers.len() == n,
                crate::text::views(cidrs@) == self.networks(),
                forall|j: int|
                    0 <= j < i ==> #[trigger] out@.peers[j] == routing(
                        before.peers[j],
                        self.networks(),
                    ),
                forall|j: int| i <= j < n ==> #[trigger] out@.peers[j] == before.peers[j],
            decreases n - i,
        {
            let ghost was = out@;
            let old_peer = &out.peers[i];
            let peer = PeerSection {
                public_key: old_peer.public_key.clone(),
                preshared_key: copied_text(&old_peer.preshared_key),
                endpoint: copied_text(&old_peer.endpoint),
                allowed_ips: crate::text::copied(&cidrs),
                persistent_keepalive: old_peer.persistent_keepalive,
            };
            proof {
                assert(was.peers[i as int] == out.peers@[i as int]@);
                assert(peer@ == routing(before.peers[i as int], self.networks()));
            }
            out.peers.set(i, peer);
            proof {
                assert forall|j: int| 0 <= j < n implies #[trigger] out@.peers[j] == (if j == i {
                    peer@
                } else {
                    was.peers[j]
                }) by {}
            }
            i += 1;
        }
        assert(out@.peers =~= routed_by(profile@, self.networks()).peers);
        Ok(out)
    }
}

/// A peer that routes `networks`.
pub open spec fn routing(p: PeerModel, networks: Seq<Seq<char>>) -> PeerModel {
    PeerModel { allowed_ips: networks, ..p }
}

/// A profile in which every peer routes `networks`.
pub open spec fn routed_by(p: ProfileModel, networks: Seq<Seq<char>>) -> ProfileModel {
    ProfileModel { peers: p.peers.map_values(|q: PeerModel| routing(q, networks)), ..p }
}

// ── laws ────────────────────────────────────────────────────────────────────

/// A preset applied over another leaves nothing of the other.
pub proof fn law_the_last_preset_counts(
    p: ProfileModel,
    first: Seq<Seq<char>>,
    second: Seq<Seq<char>>,
)
    ensures
        routed_by(routed_by(p, first), second) == routed_by(p, second),
{
    assert(routed_by(routed_by(p, first), second).peers =~= routed_by(p, second).peers);
}

/// Under the preset that routes everything a profile that has peers is a full tunnel.
pub proof fn law_full_tunnel_routes_everything(p: ProfileModel)
    ensures
        crate::config::validate::routed(
            routed_by(p, AllowedIpsPreset::FullTunnel.networks()).peers,
            "0.0.0.0/0"@,
        ) <==> p.peers.len() > 0,
        crate::config::validate::routed(
            routed_by(p, AllowedIpsPreset::FullTunnel.networks()).peers,
            "::/0"@,
        ) <==> p.peers.len() > 0,
{
    let q = routed_by(p, AllowedIpsPreset::FullTunnel.networks()).peers;
    reveal_strlit("0.0.0.0/0");
    reveal_strlit("::/0");
    crate::text::lemma_trim_keeps("0.0.0.0/0"@);
    crate::text::lemma_trim_keeps("::/0"@);
    if p.peers.len() > 0 {
        assert(q[0].allowed_ips[0] == "0.0.0.0/0"@ && q[0].allowed_ips[1] == "::/0"@);
        assert(crate::config::validate::route_at(q, 0, 0, "0.0.0.0/0"@));
        assert(crate::config::validate::route_at(q, 0, 1, "::/0"@));
    }
}

/// A preset gives every peer of a profile its networks, and nothing but networks changes.
pub proof fn law_presets_route_every_peer(
    preset: AllowedIpsPreset,
    p: WgProfile,
    r: AppResult<WgProfile>,
    i: int,
)
    requires
        call_ensures(AllowedIpsPreset::apply_to_profile, (&preset, &p), r),
        0 <= i < p.peers@.len(),
    ensures
        r is Ok,
        ({
            let was = p@.peers[i];
            let now = r->Ok_0@.peers[i];
            &&& r->Ok_0@.peers.len() == p@.peers.len()
            &&& preset is FullTunnel ==> now.allowed_ips == seq!["0.0.0.0/0"@, "::/0"@]
            &&& preset is Custom ==> now.allowed_ips == crate::text::views(preset->Custom_0@)
            &&& preset is SplitExcludeRFC1918 ==> now.allowed_ips.last() == "::/0"@
            &&& now.public_key == was.public_key && now.preshared_key == was.preshared_key
            &&& now.endpoint == was.endpoint
            &&& now.persistent_keepalive == was.persistent_keepalive
            &&& r->Ok_0@.name == p@.name && r->Ok_0@.interface == p@.interface
        }),
{
    assert(p@.peers.len() == p.peers@.len());
}

/// Each preset is shown under a name of its own.
pub proof fn law_presets_have_names(preset: AllowedIpsPreset, r: &'static str)
    requires
        call_ensures(AllowedIpsPreset::display_name, (&preset,), r),
    ensures
        preset is FullTunnel ==> r@ == "Full Tunnel"@,
        preset is SplitExcludeRFC1918 ==> r@ == "Split Tunnel (exclude RFC1918)"@,
        preset is Custom ==> r@ == "Custom"@,
{
}

} // verus!
