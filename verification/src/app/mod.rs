//! The program's state, and how it reacts to what happens.

pub mod editor;
pub mod editor_laws;
pub mod laws;
pub mod message_laws;
pub mod react;
pub mod state;
pub mod tunnel_laws;
pub mod update;
pub mod window_laws;

use crate::config::profile::WgProfile;
use vstd::prelude::*;

verus! {

/// How long the kill switch stays armed unless renewed, in seconds.
pub const KILL_SWITCH_LEASE_SECS: u64 = 3600;

/// How many samples the throughput history holds at most.
pub const THROUGHPUT_HISTORY_LEN: usize = 60;

/// How the tunnel stands.
#[derive(Debug, Clone, PartialEq, Eq)]
pub enum TunnelStatus {
    Disconnected,
    Connecting(String),
    Connected(String),
    Disconnecting,
    Error(String),
}

/// What the window shows.
#[derive(Debug, Clone, Copy, PartialEq, Eq, Structural)]
pub enum Screen {
    ProfileList,
    Editor,
    RawEditor,
    PlanPreview,
    Settings,
    Server,
}

/// How the profiles are sorted.
#[derive(Debug, Clone, Copy, PartialEq, Eq, Structural)]
pub enum SortOrder {
    NameAsc,
    NameDesc,
}

/// How much a banner matters.
#[derive(Debug, Clone, Copy, PartialEq, Eq, Structural)]
pub enum BannerKind {
    Info,
    Success,
    Warning,
    Error,
}

/// A message at the top of the window.
#[derive(Debug, Clone)]
pub struct Banner {
    pub kind: BannerKind,
    pub message: String,
}

/// The profile editor.
#[derive(Debug, Clone)]
pub struct EditorState {
    /// The name the profile is kept under.
    pub profile_name: String,
    /// The profile as edited so far.
    pub draft: WgProfile,
    /// The profile as `.conf` text.
    pub raw_text: String,
    /// What is wrong with the profile.
    pub validation_errors: Vec<(String, String)>,
    /// Whether the profile is new.
    pub is_new: bool,
}

/// One change to a field of the editor.
#[derive(Debug, Clone)]
pub enum EditorField {
    ProfileName(String),
    PrivateKey(String),
    Address(String),
    Dns(String),
    ListenPort(String),
    Mtu(String),
    PeerPublicKey(usize, String),
    PeerPresharedKey(usize, String),
    PeerEndpoint(usize, String),
    PeerAllowedIps(usize, String),
    PeerKeepalive(usize, String),
    AddPeer,
    RemovePeer(usize),
}

// ── models ──────────────────────────────────────────────────────────────────

/// How the tunnel stands.
pub enum TunnelModel {
    Disconnected,
    Connecting(Seq<char>),
    Connected(Seq<char>),
    Disconnecting,
    Error(Seq<char>),
}

/// What a banner says.
pub struct BannerModel {
    pub kind: BannerKind,
    pub message: Seq<char>,
}

/// What the editor holds.
pub struct EditorModel {
    pub profile_name: Seq<char>,
    pub draft: crate::config::profile::ProfileModel,
    pub raw_text: Seq<char>,
    pub validation_errors: Seq<crate::config::validate::Complaint>,
    pub is_new: bool,
}

impl View for TunnelStatus {
    type V = TunnelModel;

    open spec fn view(&self) -> TunnelModel {
        match *self {
            TunnelStatus::Disconnected => TunnelModel::Disconnected,
            TunnelStatus::Connecting(s) => TunnelModel::Connecting(s@),
            TunnelStatus::Connected(s) => TunnelModel::Connected(s@),
            TunnelStatus::Disconnecting => TunnelModel::Disconnecting,
            TunnelStatus::Error(s) => TunnelModel::Error(s@),
        }
    }
}

impl View for Banner {
    type V = BannerModel;

    open spec fn view(&self) -> BannerModel {
        BannerModel { kind: self.kind, message: self.message@ }
    }
}

impl View for EditorState {
    type V = EditorModel;

    open spec fn view(&self) -> EditorModel {
        EditorModel {
            profile_name: self.profile_name@,
            draft: self.draft@,
            raw_text: self.raw_text@,
            validation_errors: crate::config::validate::complaints(self.validation_errors@),
            is_new: self.is_new,
        }
    }
}

/// The title of the window while the tunnel stands so.
pub open spec fn window_title(t: TunnelModel) -> Seq<char> {
    match t {
        TunnelModel::Connected(name) => "WireGuard — "@ + name + " (connected)"@,
        TunnelModel::Connecting(name) => "WireGuard — connecting "@ + name + "…"@,
        TunnelModel::Disconnecting => "WireGuard — disconnecting…"@,
        TunnelModel::Error(_) => "WireGuard — error"@,
        TunnelModel::Disconnected => "WireGuard"@,
    }
}

} // verus!
