//! How a file that only its owner may read is put in place: written under another name, protected,
//! and renamed.

use std::path::PathBuf;

use crate::paths::extended_path;
use vstd::prelude::*;

verus! {

/// The mode of a file that its owner can read and write, and nobody else.
pub const PRIVATE_MODE: u32 = 0o600;

/// One thing done to put a file in place.
#[derive(Debug, Clone)]
pub enum FileStep {
    /// Write a file, in place of what it held.
    Write { path: PathBuf, text: String },
    /// Give a file a mode.
    Protect { path: PathBuf, mode: u32 },
    /// Rename a file, in place of any that has the new name.
    Rename { from: PathBuf, to: PathBuf },
}

/// What a step says.
pub enum FileStepModel {
    Write { path: PathBuf, text: Seq<char> },
    Protect { path: PathBuf, mode: u32 },
    Rename { from: PathBuf, to: PathBuf },
}

impl View for FileStep {
    type V = FileStepModel;

    open spec fn view(&self) -> FileStepModel {
        match *self {
            FileStep::Write { path, text } => FileStepModel::Write { path, text: text@ },
            FileStep::Protect { path, mode } => FileStepModel::Protect { path, mode },
            FileStep::Rename { from, to } => FileStepModel::Rename { from, to },
        }
    }
}

/// What a row of steps says.
pub open spec fn file_step_views(v: Seq<FileStep>) -> Seq<FileStepModel> {
    v.map_values(|s: FileStep| s@)
}

/// Where a file is written before it is renamed.
pub open spec fn draft_path(path: PathBuf) -> PathBuf {
    crate::paths::path_with_extension(path, "conf.tmp"@)
}

/// The steps that put a file in place.
pub open spec fn private_steps(path: PathBuf, text: Seq<char>) -> Seq<FileStepModel> {
    seq![
        FileStepModel::Write { path: draft_path(path), text },
        FileStepModel::Protect { path: draft_path(path), mode: PRIVATE_MODE },
        FileStepModel::Rename { from: draft_path(path), to: path },
    ]
}

/// The steps that put a file in place, to be done in order until one fails. Where the path has an
/// extension, that of the file written first is `tmp`.
pub fn private_write(path: &PathBuf, text: String) -> (r: Vec<FileStep>)
    ensures
        file_step_views(r@) == private_steps(*path, text@),
        crate::paths::path_extension(*path) is Some ==> crate::paths::path_extension(
            draft_path(*path),
        ) == Some("tmp"@),
{
    proof {
        reveal_strlit("conf.tmp");
        reveal_strlit("conf");
        reveal_strlit(".");
        reveal_strlit("tmp");
        assert("conf.tmp"@ =~= "conf"@ + "."@ + "tmp"@);
        assert(crate::paths::file_named("conf.tmp"@, "conf"@, "tmp"@));
    }
    let draft = extended_path(path, "conf.tmp");
    let mut steps: Vec<FileStep> = Vec::new();
    steps.push(FileStep::Write { path: draft.clone(), text });
    steps.push(FileStep::Protect { path: draft.clone(), mode: PRIVATE_MODE });
    steps.push(FileStep::Rename { from: draft, to: path.clone() });
    assert(file_step_views(steps@) =~= private_steps(*path, text@));
    steps
}

// ── what the steps do ───────────────────────────────────────────────────────

/// What a file is: its mode and its text.
pub struct FileModel {
    pub mode: u32,
    pub text: Seq<char>,
}

/// The files of a directory once a step was done. A file that a step makes has the mode `fresh`.
pub open spec fn step_done(
    disk: Map<PathBuf, FileModel>,
    step: FileStepModel,
    fresh: u32,
) -> Map<PathBuf, FileModel> {
    match step {
        FileStepModel::Write { path, text } => disk.insert(
            path,
            FileModel {
                mode: if disk.contains_key(path) {
                    disk[path].mode
                } else {
                    fresh
                },
                text,
            },
        ),
        FileStepModel::Protect { path, mode } => if disk.contains_key(path) {
            disk.insert(path, FileModel { mode, text: disk[path].text })
        } else {
            disk
        },
        FileStepModel::Rename { from, to } => if disk.contains_key(from) {
            disk.remove(from).insert(to, disk[from])
        } else {
            disk
        },
    }
}

/// The files of a directory once some steps were done.
pub open spec fn steps_done(
    disk: Map<PathBuf, FileModel>,
    steps: Seq<FileStepModel>,
    fresh: u32,
) -> Map<PathBuf, FileModel>
    decreases steps.len(),
{
    if steps.len() == 0 {
        disk
    } else {
        step_done(steps_done(disk, steps.drop_last(), fresh), steps.last(), fresh)
    }
}

/// Whichever number of the steps were done, a file is there as it was or as it is to be, never in
/// part, and no file is touched but it and the one that is written first. Once all were done, it
/// holds the whole text, only its owner can read it, and the other one is gone.
pub proof fn law_files_are_replaced_whole(
    disk: Map<PathBuf, FileModel>,
    path: PathBuf,
    text: Seq<char>,
    fresh: u32,
    done: int,
    other: PathBuf,
)
    requires
        draft_path(path) != path,
        0 <= done <= 3,
    ensures
        ({
            let now = steps_done(disk, private_steps(path, text).take(done), fresh);
            &&& done < 3 ==> now.contains_key(path) == disk.contains_key(path) && now[path]
                == disk[path]
            &&& done == 3 ==> now.contains_key(path) && now[path] == (FileModel {
                mode: PRIVATE_MODE,
                text,
            }) && !now.contains_key(draft_path(path))
            &&& other != path && other != draft_path(path) ==> now.contains_key(other)
                == disk.contains_key(other) && now[other] == disk[other]
        }),
{
    let steps = private_steps(path, text);
    reveal_with_fuel(steps_done, 4);
    assert(steps.take(0).len() == 0);
    assert(steps.take(1).drop_last() =~= steps.take(0));
    assert(steps.take(2).drop_last() =~= steps.take(1));
    assert(steps.take(3).drop_last() =~= steps.take(2));
}

} // verus!
