//! The errors of the library.

use vstd::prelude::*;

verus! {

/// All errors the application reports, each with a stable code in its text.
#[derive(Debug, Clone)]
pub enum AppError {
    InvalidProfileName(String),
    ProfileNotFound(String),
    ProfileExists(String),
    ProfileParseError { name: String, detail: String },
    ValidationError { field: String, detail: String },
    ProfileIo(String),
    WgQuickFailed(String),
    WgNotFound,
    PermissionDenied,
    TunnelAlreadyActive(String),
    NoActiveTunnel,
    WgShowParseFailed(String),
    TunnelTimeout,
    KeygenFailed(String),
    AutostartWriteFailed(String),
    AlreadyRunning,
    IpcFailed(String),
    SettingsLoadFailed(String),
    SettingsSaveFailed(String),
    PublicIpFetchFailed(String),
    ImportFailed(String),
    ExportFailed(String),
    AllowedIpsError(String),
    NetnsFailed(String),
}

/// The result type used throughout the library.
pub type AppResult<T> = Result<T, AppError>;

/// The text of `head` with the text of `tail` behind it.
fn with_text(head: &str, tail: &String) -> (r: String)
    ensures
        r@ == head@ + tail@,
{
    let mut out = head.to_owned();
    out.push_str(tail.as_str());
    out
}

impl AppError {
    /// The text an error is shown with.
    pub open spec fn message(&self) -> Seq<char> {
        match *self {
            AppError::InvalidProfileName(s) => "[E101] invalid profile name: "@ + s@,
            AppError::ProfileNotFound(s) => "[E102] profile not found: "@ + s@,
            AppError::ProfileExists(s) => "[E103] profile already exists: "@ + s@,
            AppError::ProfileParseError { name, detail } => "[E104] failed to parse profile '"@
                + name@ + "': "@ + detail@,
            AppError::ValidationError { field, detail } => "[E105] validation error on field '"@
                + field@ + "': "@ + detail@,
            AppError::ProfileIo(s) => "[E106] profile I/O error: "@ + s@,
            AppError::WgQuickFailed(s) => "[E201] wg-quick failed: "@ + s@,
            AppError::WgNotFound => "[E202] wireguard tooling not found on PATH"@,
            AppError::PermissionDenied => "[E203] permission denied (root/privilege required)"@,
            AppError::TunnelAlreadyActive(s) => "[E204] tunnel already active: "@ + s@,
            AppError::NoActiveTunnel => "[E205] no active tunnel"@,
            AppError::WgShowParseFailed(s) => "[E206] failed to parse `wg show` output: "@ + s@,
            AppError::TunnelTimeout => "[E207] tunnel operation timed out"@,
            AppError::KeygenFailed(s) => "[E301] key generation failed: "@ + s@,
            AppError::AutostartWriteFailed(s) => "[E401] failed to write autostart entry: "@ + s@,
            AppError::AlreadyRunning => "[E501] another instance is already running"@,
            AppError::IpcFailed(s) => "[E502] IPC failed: "@ + s@,
            AppError::SettingsLoadFailed(s) => "[E601] failed to load settings: "@ + s@,
            AppError::SettingsSaveFailed(s) => "[E602] failed to save settings: "@ + s@,
            AppError::PublicIpFetchFailed(s) => "[E701] failed to fetch public IP: "@ + s@,
            AppError::ImportFailed(s) => "[E801] import failed: "@ + s@,
            AppError::ExportFailed(s) => "[E802] export failed: "@ + s@,
            AppError::AllowedIpsError(s) => "[E901] AllowedIPs error: "@ + s@,
            AppError::NetnsFailed(s) => "[E902] network namespace operation failed: "@ + s@,
        }
    }

    /// The text an error is shown with.
    pub fn to_string(&self) -> (r: String)
        ensures
            r@ == self.message(),
    {
        match self {
            AppError::InvalidProfileName(s) => with_text("[E101] invalid profile name: ", s),
            AppError::ProfileNotFound(s) => with_text("[E102] profile not found: ", s),
            AppError::ProfileExists(s) => with_text("[E103] profile already exists: ", s),
            AppError::ProfileParseError { name, detail } => {
                let mut out = with_text("[E104] failed to parse profile '", name);
                out.push_str("': ");
                out.push_str(detail.as_str());
                out
            },
            AppError::ValidationError { field, detail } => {
                let mut out = with_text("[E105] validation error on field '", field);
                out.push_str("': ");
                out.push_str(detail.as_str());
                out
            },
            AppError::ProfileIo(s) => with_text("[E106] profile I/O error: ", s),
            AppError::WgQuickFailed(s) => with_text("[E201] wg-quick failed: ", s),
            AppError::WgNotFound => "[E202] wireguard tooling not found on PATH".to_owned(),
            AppError::PermissionDenied => {
                "[E203] permission denied (root/privilege required)".to_owned()
            },
            AppError::TunnelAlreadyActive(s) => with_text("[E204] tunnel already active: ", s),
            AppError::NoActiveTunnel => "[E205] no active tunnel".to_owned(),
            AppError::WgShowParseFailed(s) => {
                with_text("[E206] failed to parse `wg show` output: ", s)
            },
            AppError::TunnelTimeout => "[E207] tunnel operation timed out".to_owned(),
            AppError::KeygenFailed(s) => with_text("[E301] key generation failed: ", s),
            AppError::AutostartWriteFailed(s) => {
                with_text("[E401] failed to write autostart entry: ", s)
            },
            AppError::AlreadyRunning => "[E501] another instance is already running".to_owned(),
            AppError::IpcFailed(s) => with_text("[E502] IPC failed: ", s),
            AppError::SettingsLoadFailed(s) => with_text("[E601] failed to load settings: ", s),
            AppError::SettingsSaveFailed(s) => with_text("[E602] failed to save settings: ", s),
            AppError::PublicIpFetchFailed(s) => with_text("[E701] failed to fetch public IP: ", s),
            AppError::ImportFailed(s) => with_text("[E801] import failed: ", s),
            AppError::ExportFailed(s) => with_text("[E802] export failed: ", s),
            AppError::AllowedIpsError(s) => with_text("[E901] AllowedIPs error: ", s),
            AppError::NetnsFailed(s) => {
                with_text("[E902] network namespace operation failed: ", s)
            },
        }
    }
}

// ── laws ────────────────────────────────────────────────────────────────────

/// The number that an error is known by: the hundreds say what it is about, which is profiles,
/// tunnels, keys, starting on login, other instances, settings, the public address, import and
/// export, or routes.
pub open spec fn error_number(e: AppError) -> nat {
    match e {
        AppError::InvalidProfileName(_) => 101,
        AppError::ProfileNotFound(_) => 102,
        AppError::ProfileExists(_) => 103,
        AppError::ProfileParseError { .. } => 104,
        AppError::ValidationError { .. } => 105,
        AppError::ProfileIo(_) => 106,
        AppError::WgQuickFailed(_) => 201,
        AppError::WgNotFound => 202,
        AppError::PermissionDenied => 203,
        AppError::TunnelAlreadyActive(_) => 204,
        AppError::NoActiveTunnel => 205,
        AppError::WgShowParseFailed(_) => 206,
        AppError::TunnelTimeout => 207,
        AppError::KeygenFailed(_) => 301,
        AppError::AutostartWriteFailed(_) => 401,
        AppError::AlreadyRunning => 501,
        AppError::IpcFailed(_) => 502,
        AppError::SettingsLoadFailed(_) => 601,
        AppError::SettingsSaveFailed(_) => 602,
        AppError::PublicIpFetchFailed(_) => 701,
        AppError::ImportFailed(_) => 801,
        AppError::ExportFailed(_) => 802,
        AppError::AllowedIpsError(_) => 901,
        AppError::NetnsFailed(_) => 902,
    }
}

/// What an error has to tell beyond its kind.
pub open spec fn error_detail(e: AppError) -> Seq<char> {
    match e {
        AppError::InvalidProfileName(s) => s@,
        AppError::ProfileNotFound(s) => s@,
        AppError::ProfileExists(s) => s@,
        AppError::ProfileParseError { name: _, detail } => detail@,
        AppError::ValidationError { field: _, detail } => detail@,
        AppError::ProfileIo(s) => s@,
        AppError::WgQuickFailed(s) => s@,
        AppError::WgNotFound => Seq::empty(),
        AppError::PermissionDenied => Seq::empty(),
        AppError::TunnelAlreadyActive(s) => s@,
        AppError::NoActiveTunnel => Seq::empty(),
        AppError::WgShowParseFailed(s) => s@,
        AppError::TunnelTimeout => Seq::empty(),
        AppError::KeygenFailed(s) => s@,
        AppError::AutostartWriteFailed(s) => s@,
        AppError::AlreadyRunning => Seq::empty(),
        AppError::IpcFailed(s) => s@,
        AppError::SettingsLoadFailed(s) => s@,
        AppError::SettingsSaveFailed(s) => s@,
        AppError::PublicIpFetchFailed(s) => s@,
        AppError::ImportFailed(s) => s@,
        AppError::ExportFailed(s) => s@,
        AppError::AllowedIpsError(s) => s@,
        AppError::NetnsFailed(s) => s@,
    }
}

/// The text of an error begins with its number, in brackets, and ends with what it has to tell.
pub proof fn law_errors_are_known_by_their_numbers(e: AppError, r: String)
    requires
        call_ensures(AppError::to_string, (&e,), r),
    ensures
        ("[E"@ + crate::text::decimal(error_number(e)) + "] "@).is_prefix_of(r@),
        error_detail(e).is_suffix_of(r@),
{
    reveal_strlit("[E");
    reveal_strlit("] ");
    let n = error_number(e);
    let d = error_detail(e);
    crate::net::split::lemma_small_decimal(n);
    let head = "[E"@ + crate::text::decimal(n) + "] "@;
    match e {
        AppError::InvalidProfileName(_) => {
            reveal_strlit("[E101] invalid profile name: ");
        },
        AppError::ProfileNotFound(_) => {
            reveal_strlit("[E102] profile not found: ");
        },
        AppError::ProfileExists(_) => {
            reveal_strlit("[E103] profile already exists: ");
        },
        AppError::ProfileParseError { .. } => {
            reveal_strlit("[E104] failed to parse profile '");
        },
        AppError::ValidationError { .. } => {
            reveal_strlit("[E105] validation error on field '");
        },
        AppError::ProfileIo(_) => {
            reveal_strlit("[E106] profile I/O error: ");
        },
        AppError::WgQuickFailed(_) => {
            reveal_strlit("[E201] wg-quick failed: ");
        },
        AppError::WgNotFound => {
            reveal_strlit("[E202] wireguard tooling not found on PATH");
        },
        AppError::PermissionDenied => {
            reveal_strlit("[E203] permission denied (root/privilege required)");
        },
        AppError::TunnelAlreadyActive(_) => {
            reveal_strlit("[E204] tunnel already active: ");
        },
        AppError::NoActiveTunnel => {
            reveal_strlit("[E205] no active tunnel");
        },
        AppError::WgShowParseFailed(_) => {
            reveal_strlit("[E206] failed to parse `wg show` output: ");
        },
        AppError::TunnelTimeout => {
            reveal_strlit("[E207] tunnel operation timed out");
        },
        AppError::KeygenFailed(_) => {
            reveal_strlit("[E301] key generation failed: ");
        },
        AppError::AutostartWriteFailed(_) => {
            reveal_strlit("[E401] failed to write autostart entry: ");
        },
        AppError::AlreadyRunning => {
            reveal_strlit("[E501] another instance is already running");
        },
        AppError::IpcFailed(_) => {
            reveal_strlit("[E502] IPC failed: ");
        },
        AppError::SettingsLoadFailed(_) => {
            reveal_strlit("[E601] failed to load settings: ");
        },
        AppError::SettingsSaveFailed(_) => {
            reveal_strlit("[E602] failed to save settings: ");
        },
        AppError::PublicIpFetchFailed(_) => {
            reveal_strlit("[E701] failed to fetch public IP: ");
        },
        AppError::ImportFailed(_) => {
            reveal_strlit("[E801] import failed: ");
        },
        AppError::ExportFailed(_) => {
            reveal_strlit("[E802] export failed: ");
        },
        AppError::AllowedIpsError(_) => {
            reveal_strlit("[E901] AllowedIPs error: ");
        },
        AppError::NetnsFailed(_) => {
            reveal_strlit("[E902] network namespace operation failed: ");
        },
    }
    assert(head =~= r@.take(head.len() as int));
    assert(d =~= r@.skip(r@.len() - d.len()));
}

/// Errors of one kind say the same but for their details: of two kinds, the numbers differ.
pub proof fn law_numbers_tell_errors_apart(a: AppError, b: AppError)
    requires
        error_number(a) == error_number(b),
        error_detail(a) == error_detail(b),
        !(a is ProfileParseError) && !(a is ValidationError),
    ensures
        a.message() == b.message(),
{
}

} // verus!
