//! Starting on login, by an entry in the user's autostart directory.

use std::path::PathBuf;

use crate::error::{AppError, AppResult};
use crate::paths::{join_path, parent_of, shown_path};
use crate::text::{text2, text3, text4};
use vstd::prelude::*;

verus! {

/// The name of the entry in the autostart directory.
pub const DESKTOP_FILENAME: &'static str = "wireguard-gui-rust.desktop";

/// Manages the autostart entry.
#[derive(Debug, Clone)]
pub struct AutostartManager {
    pub desktop_path: PathBuf,
}

/// Where the entry stands below a home directory.
pub open spec fn entry_path(home: PathBuf) -> PathBuf {
    crate::paths::path_joined(
        crate::paths::path_joined(crate::paths::path_joined(home, ".config"@), "autostart"@),
        DESKTOP_FILENAME@,
    )
}

/// The directory that a path stands in, as it is shown; nothing where it stands in none.
pub open spec fn shown_directory(p: PathBuf) -> Seq<char> {
    match crate::paths::path_parent(p) {
        Some(d) => crate::paths::path_shown(d),
        None => Seq::empty(),
    }
}

/// What came of writing the entry.
#[derive(Debug, Clone)]
pub enum EntryWrite {
    /// The program does not know where it is.
    NoProgram(String),
    /// The directory of the entry could not be made.
    NoDirectory(String),
    /// The entry could not be written.
    Unwritten(String),
    /// The entry was written.
    Written,
}

impl AutostartManager {
    /// The manager for a home directory, where there is one.
    pub fn new(home: Option<PathBuf>) -> (r: AppResult<Self>)
        ensures
            match home {
                Some(h) => r matches Ok(m) && m.desktop_path == entry_path(h),
                None => r matches Err(AppError::AutostartWriteFailed(t)) && t@
                    == "cannot determine home directory"@,
            },
    {
        match home {
            Some(h) => {
                let config = join_path(&h, ".config");
                let autostart = join_path(&config, "autostart");
                Ok(AutostartManager { desktop_path: join_path(&autostart, DESKTOP_FILENAME) })
            },
            None => Err(
                AppError::AutostartWriteFailed("cannot determine home directory".to_owned()),
            ),
        }
    }

    /// The result of writing the entry.
    pub fn enable(&self, write: EntryWrite) -> (r: AppResult<()>)
        ensures
            match write {
                EntryWrite::NoProgram(e) => r matches Err(AppError::AutostartWriteFailed(t)) && t@
                    == "cannot resolve current_exe: "@ + e@,
                EntryWrite::NoDirectory(e) => r matches Err(AppError::AutostartWriteFailed(t))
                    && t@ == "cannot create autostart directory "@ + shown_directory(
                    self.desktop_path,
                ) + ": "@ + e@,
                EntryWrite::Unwritten(e) => r matches Err(AppError::AutostartWriteFailed(t)) && t@
                    == "cannot write "@ + crate::paths::path_shown(self.desktop_path) + ": "@ + e@,
                EntryWrite::Written => r is Ok,
            },
    {
        let t = match write {
            EntryWrite::NoProgram(e) => text2("cannot resolve current_exe: ", e.as_str()),
            EntryWrite::NoDirectory(e) => {
                let dir = match parent_of(&self.desktop_path) {
                    Some(d) => shown_path(&d),
                    None => String::new(),
                };
                text4("cannot create autostart directory ", dir.as_str(), ": ", e.as_str())
            },
            EntryWrite::Unwritten(e) => {
                let path = shown_path(&self.desktop_path);
                text4("cannot write ", path.as_str(), ": ", e.as_str())
            },
            EntryWrite::Written => {
                return Ok(());
            },
        };
        Err(AppError::AutostartWriteFailed(t))
    }

    /// The result of removing the entry. Where it was not there, nothing is removed and nothing
    /// fails.
    pub fn disable(&self, entry_present: bool, removed: Result<(), String>) -> (r: AppResult<()>)
        ensures
            match removed {
                Err(e) if entry_present => r matches Err(AppError::AutostartWriteFailed(t)) && t@
                    == "cannot remove "@ + crate::paths::path_shown(self.desktop_path) + ": "@
                    + e@,
                _ => r is Ok,
            },
    {
        if entry_present {
            if let Err(e) = removed {
                let path = shown_path(&self.desktop_path);
                return Err(
                    AppError::AutostartWriteFailed(
                        text4("cannot remove ", path.as_str(), ": ", e.as_str()),
                    ),
                );
            }
        }
        Ok(())
    }
}

/// The lines of the entry for a program.
pub open spec fn desktop_rows(exe_path: Seq<char>) -> Seq<Seq<char>> {
    seq![
        "[Desktop Entry]"@,
        "Type=Application"@,
        "Name=WireGuard GUI"@,
        "Comment=WireGuard VPN manager"@,
        "Exec="@ + exe_path + " --hidden"@,
        "Hidden=false"@,
        "X-GNOME-Autostart-enabled=true"@,
    ]
}

/// The text of the entry that starts a program in the tray.
pub fn desktop_file_contents(exe_path: &str) -> (r: String)
    ensures
        r@ == crate::text::flat(desktop_rows(exe_path@)),
{
    let exec = text3("Exec=", exe_path, " --hidden");
    let rows: Vec<&str> = vec![
        "[Desktop Entry]",
        "Type=Application",
        "Name=WireGuard GUI",
        "Comment=WireGuard VPN manager",
        exec.as_str(),
        "Hidden=false",
        "X-GNOME-Autostart-enabled=true",
    ];
    assert(crate::text::slices(rows@) =~= desktop_rows(exe_path@));
    crate::text::text_of_lines(&rows)
}

// ── laws ────────────────────────────────────────────────────────────────────

/// The entry stands in the user's autostart directory.
pub proof fn law_the_entry_is_the_users(home: PathBuf, r: AppResult<AutostartManager>)
    requires
        call_ensures(AutostartManager::new, (Some(home),), r),
    ensures
        r is Ok,
        r->Ok_0.desktop_path == crate::paths::path_joined(
            crate::paths::path_joined(crate::paths::path_joined(home, ".config"@), "autostart"@),
            "wireguard-gui-rust.desktop"@,
        ),
{
}

/// The entry is an application that is not hidden from the session, and starts the program without
/// its window.
pub proof fn law_the_entry_starts_the_program(exe: &str, r: String)
    requires
        call_ensures(desktop_file_contents, (exe,), r),
        !exe@.contains('\n'),
    ensures
        ({
            let rows = crate::text::lines_of(r@);
            &&& rows.len() == 7
            &&& rows[0] == "[Desktop Entry]"@
            &&& rows.contains("Type=Application"@)
            &&& rows.contains("Name=WireGuard GUI"@)
            &&& rows.contains("Exec="@ + exe@ + " --hidden"@)
            &&& rows.contains("Hidden=false"@)
            &&& rows.contains("X-GNOME-Autostart-enabled=true"@)
        }),
{
    let rows = desktop_rows(exe@);
    reveal_strlit("[Desktop Entry]");
    reveal_strlit("Type=Application");
    reveal_strlit("Name=WireGuard GUI");
    reveal_strlit("Comment=WireGuard VPN manager");
    reveal_strlit("Exec=");
    reveal_strlit(" --hidden");
    reveal_strlit("Hidden=false");
    reveal_strlit("X-GNOME-Autostart-enabled=true");
    let exec = rows[4];
    assert forall|i: int| 0 <= i < exec.len() implies exec[i] != '\n' by {
        if 5 <= i < 5 + exe@.len() {
            assert(exec[i] == exe@[i - 5]);
            assert(exe@.contains(exe@[i - 5]));
        }
    }
    assert(exec.last() == 'n');
    assert forall|i: int| 0 <= i < rows.len() implies !(#[trigger] rows[i]).contains('\n')
        && crate::text::without_cr(rows[i]) == rows[i] by {}
    crate::text::lemma_lines_flat(rows);
    assert(rows[1] == "Type=Application"@ && rows[2] == "Name=WireGuard GUI"@);
    assert(rows[5] == "Hidden=false"@ && rows[6] == "X-GNOME-Autostart-enabled=true"@);
}

/// Starting on login is turned on exactly when the entry was written, and turned off exactly when
/// no entry is left: none was there, or it was removed.
pub proof fn law_the_entry_is_written_or_removed(
    m: AutostartManager,
    write: EntryWrite,
    on: AppResult<()>,
    present: bool,
    removed: Result<(), String>,
    off: AppResult<()>,
)
    requires
        call_ensures(AutostartManager::enable, (&m, write), on),
        call_ensures(AutostartManager::disable, (&m, present, removed), off),
    ensures
        on is Ok <==> write is Written,
        on is Err ==> on->Err_0 is AutostartWriteFailed,
        off is Ok <==> !present || removed is Ok,
        off is Err ==> off->Err_0 is AutostartWriteFailed
            && off->Err_0->AutostartWriteFailed_0@ == "cannot remove "@
            + crate::paths::path_shown(m.desktop_path) + ": "@ + removed->Err_0@,
{
}

} // verus!
