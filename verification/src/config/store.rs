//! The profile store: one `.conf` file for each profile in a directory.

use std::path::PathBuf;

use crate::config::disk::FileModel;
use crate::config::profile::{ProfileModel, WgProfile};
use crate::error::{AppError, AppResult};
use crate::order::{sort_texts, text_before};
use crate::paths::{extension_of, join_path, quoted_path, stem_of, to_path};
use crate::text::{same, text2, text4};
use vstd::prelude::*;

verus! {

/// The profiles kept in `dir`.
#[derive(Debug, Clone)]
pub struct ProfileStore {
    pub dir: PathBuf,
}

/// The path of the file of the profile `name`.
pub open spec fn profile_path(dir: PathBuf, name: Seq<char>) -> PathBuf {
    crate::paths::path_joined(dir, name + ".conf"@)
}

/// The name of the profile that a file holds: its stem, where the extension is `conf`.
pub open spec fn profile_of_file(p: PathBuf) -> Option<Seq<char>> {
    if crate::paths::path_extension(p) == Some("conf"@) {
        crate::paths::path_stem(p)
    } else {
        None
    }
}

/// The names of the profiles that files hold, in the order of the files.
pub open spec fn profiles_of_files(files: Seq<PathBuf>) -> Seq<Seq<char>>
    decreases files.len(),
{
    if files.len() == 0 {
        Seq::empty()
    } else {
        let front = profiles_of_files(files.drop_last());
        match profile_of_file(files.last()) {
            Some(name) => front.push(name),
            None => front,
        }
    }
}

/// Whether `r` is what reading `text` as the profile `name` gives, with the path `path`.
pub open spec fn parsed_into(
    r: AppResult<WgProfile>,
    name: Seq<char>,
    text: Seq<char>,
    path: Option<PathBuf>,
) -> bool {
    match crate::config::profile::parsed_conf(name, text) {
        Ok(m) => r matches Ok(p) && p@ == (ProfileModel { path, ..m }),
        Err(d) => r matches Err(AppError::ProfileParseError { name: n, detail }) && n@ == name
            && detail@ == d,
    }
}

/// Whether `r` is what importing `text` as the profile `name` into the store in `dir` gives.
pub open spec fn imported_into(
    r: AppResult<WgProfile>,
    dir: PathBuf,
    name: Seq<char>,
    text: Seq<char>,
) -> bool {
    match crate::config::profile::parsed_conf(name, text) {
        Ok(m) => r matches Ok(p) && p@ == (ProfileModel {
            path: Some(profile_path(dir, name)),
            ..m
        }),
        Err(d) => r matches Err(AppError::ImportFailed(t)) && t@
            == "[E104] failed to parse profile '"@ + name + "': "@ + d,
    }
}

/// Whether `r` is what creating a profile gives: the text to write, or a refusal where its file is
/// there already.
pub open spec fn created(r: AppResult<String>, p: ProfileModel, present: bool) -> bool {
    if present {
        refused(r, p.name)
    } else {
        r matches Ok(t) && t@ == crate::config::profile::conf_text(p)
    }
}

/// What came of reading the store's directory.
#[derive(Debug, Clone)]
pub enum DirRead {
    /// It could not be read.
    Unreadable(String),
    /// One of its entries could not be read.
    BadEntry(String),
    /// Its files.
    Files(Vec<PathBuf>),
}

/// What came of reading a profile's file.
#[derive(Debug, Clone)]
pub enum ConfRead {
    /// It is not there.
    Missing,
    /// It could not be read.
    Unreadable(String),
    /// What it holds.
    Text(String),
}

/// The names of the profiles that files hold, in dictionary order.
fn names_of(files: &Vec<PathBuf>) -> (r: Vec<String>)
    ensures
        crate::text::views(r@) == crate::order::sorted_texts(profiles_of_files(files@)),
{
    let mut names: Vec<String> = Vec::new();
    let mut i: usize = 0;
    assert(crate::text::views(names@) =~= profiles_of_files(files@.take(0)));
    while i < files.len()
        invariant
            i <= files@.len(),
            crate::text::views(names@) == profiles_of_files(files@.take(i as int)),
        decreases files@.len() - i,
    {
        assert(files@.take(i as int + 1).drop_last() =~= files@.take(i as int));
        let ghost before = crate::text::views(names@);
        let is_conf = match extension_of(&files[i]) {
            Some(e) => same(e.as_str(), "conf"),
            None => false,
        };
        if is_conf {
            if let Some(stem) = stem_of(&files[i]) {
                names.push(stem);
                assert(crate::text::views(names@) =~= before.push(stem@));
            }
        }
        i += 1;
    }
    assert(files@.take(i as int) =~= files@);
    sort_texts(names)
}

impl ProfileStore {
    /// The path of the file of the profile `name`. Where the name can be one of a file, that file
    /// holds the profile of this name.
    pub fn conf_path(&self, name: &str) -> (r: PathBuf)
        ensures
            r == profile_path(self.dir, name@),
            name@.len() > 0 && !name@.contains('/') ==> profile_of_file(r) == Some(name@),
    {
        let file = text2(name, ".conf");
        proof {
            reveal_strlit(".conf");
            reveal_strlit(".");
            reveal_strlit("conf");
            assert(".conf"@ =~= "."@ + "conf"@);
            assert(file@ =~= name@ + "."@ + "conf"@);
            assert forall|i: int| 0 <= i < file@.len() && !name@.contains('/') implies file@[i]
                != '/' by {
                if i < name@.len() {
                    assert(name@.contains(name@[i]));
                }
            }
            if name@.len() > 0 && !name@.contains('/') {
                assert(crate::paths::file_named(file@, name@, "conf"@));
            }
        }
        join_path(&self.dir, file.as_str())
    }

    /// The store in `dir`, which `made` says could be made, or why it could not.
    pub fn at(dir: PathBuf, made: Result<(), String>) -> (r: AppResult<Self>)
        ensures
            match made {
                Ok(()) => r matches Ok(s) && s.dir == dir,
                Err(e) => r matches Err(AppError::ProfileIo(t)) && t@ == "create_dir_all "@
                    + crate::paths::path_quoted(dir) + ": "@ + e@,
            },
    {
        match made {
            Ok(()) => Ok(ProfileStore { dir }),
            Err(e) => {
                let q = quoted_path(&dir);
                Err(AppError::ProfileIo(text4("create_dir_all ", q.as_str(), ": ", e.as_str())))
            },
        }
    }

    /// The store in the user's directory, if there is one, which `made` says could be made.
    pub fn new(dir: Option<PathBuf>, made: Result<(), String>) -> (r: AppResult<Self>)
        ensures
            match dir {
                None => r matches Err(AppError::ProfileIo(t)) && t@
                    == "cannot locate user config directory"@,
                Some(d) => match made {
                    Ok(()) => r matches Ok(s) && s.dir == d,
                    Err(e) => r matches Err(AppError::ProfileIo(t)) && t@ == "create_dir_all "@
                        + crate::paths::path_quoted(d) + ": "@ + e@,
                },
            },
    {
        match dir {
            None => Err(AppError::ProfileIo("cannot locate user config directory".to_owned())),
            Some(d) => ProfileStore::at(d, made),
        }
    }

    /// The names of the profiles that the files of the directory hold, in dictionary order.
    pub fn list_profiles(&self, read: DirRead) -> (r: AppResult<Vec<String>>)
        ensures
            match read {
                DirRead::Unreadable(e) => r matches Err(AppError::ProfileIo(t)) && t@
                    == "read_dir "@ + crate::paths::path_quoted(self.dir) + ": "@ + e@,
                DirRead::BadEntry(e) => r matches Err(AppError::ProfileIo(t)) && t@
                    == "dir entry: "@ + e@,
                DirRead::Files(files) => r matches Ok(names) && crate::text::views(names@)
                    == crate::order::sorted_texts(profiles_of_files(files@)),
            },
    {
        match read {
            DirRead::Unreadable(e) => {
                let q = quoted_path(&self.dir);
                Err(AppError::ProfileIo(text4("read_dir ", q.as_str(), ": ", e.as_str())))
            },
            DirRead::BadEntry(e) => Err(AppError::ProfileIo(text2("dir entry: ", e.as_str()))),
            DirRead::Files(files) => Ok(names_of(&files)),
        }
    }

    /// The profile that reading the file of `name` gave.
    pub fn read_profile(&self, name: &str, read: ConfRead) -> (r: AppResult<WgProfile>)
        ensures
            match read {
                ConfRead::Missing => r matches Err(AppError::ProfileNotFound(t)) && t@ == name@,
                ConfRead::Unreadable(e) => r matches Err(AppError::ProfileIo(t)) && t@ == "read "@
                    + crate::paths::path_quoted(profile_path(self.dir, name@)) + ": "@ + e@,
                ConfRead::Text(text) => parsed_into(
                    r,
                    name@,
                    text@,
                    Some(profile_path(self.dir, name@)),
                ),
            },
    {
        let path = self.conf_path(name);
        match read {
            ConfRead::Missing => Err(AppError::ProfileNotFound(name.to_owned())),
            ConfRead::Unreadable(e) => {
                let q = quoted_path(&path);
                Err(AppError::ProfileIo(text4("read ", q.as_str(), ": ", e.as_str())))
            },
            ConfRead::Text(text) => match WgProfile::from_conf_str(name, text.as_str()) {
                Ok(mut profile) => {
                    profile.path = Some(path);
                    Ok(profile)
                },
                Err(e) => Err(e),
            },
        }
    }

    /// The text to write for a new profile; there must not be a file of its name yet.
    pub fn create_profile(&self, profile: &WgProfile, present: bool) -> (r: AppResult<String>)
        ensures
            created(r, profile@, present),
    {
        if present {
            return Err(AppError::ProfileExists(profile.name.clone()));
        }
        Ok(profile.to_conf_string())
    }

    /// The text to write for a profile, whether or not there is a file of its name.
    pub fn save_profile(&self, profile: &WgProfile) -> (r: String)
        ensures
            r@ == crate::config::profile::conf_text(profile@),
    {
        profile.to_conf_string()
    }

    /// The result of removing the file of `name`.
    pub fn delete_profile(&self, name: &str, present: bool, removed: Result<(), String>) -> (r:
        AppResult<()>)
        ensures
            if !present {
                r matches Err(AppError::ProfileNotFound(t)) && t@ == name@
            } else {
                match removed {
                    Ok(()) => r is Ok,
                    Err(e) => r matches Err(AppError::ProfileIo(t)) && t@ == "remove "@
                        + crate::paths::path_quoted(profile_path(self.dir, name@)) + ": "@ + e@,
                }
            },
    {
        if !present {
            return Err(AppError::ProfileNotFound(name.to_owned()));
        }
        match removed {
            Ok(()) => Ok(()),
            Err(e) => {
                let path = self.conf_path(name);
                let q = quoted_path(&path);
                Err(AppError::ProfileIo(text4("remove ", q.as_str(), ": ", e.as_str())))
            },
        }
    }

    /// The profile that a `.conf` file from elsewhere holds, named by the file's stem. Its path is
    /// the one it will have in the store.
    pub fn import_from_path(&self, path: &PathBuf, read: Result<String, String>) -> (r: AppResult<
        WgProfile,
    >)
        ensures
            match crate::paths::path_stem(*path) {
                None => r matches Err(AppError::ImportFailed(t)) && t@ == "path has no file stem"@,
                Some(stem) => match read {
                    Err(e) => r matches Err(AppError::ImportFailed(t)) && t@ == "read "@
                        + crate::paths::path_quoted(*path) + ": "@ + e@,
                    Ok(text) => imported_into(r, self.dir, stem, text@),
                },
            },
    {
        let stem = match stem_of(path) {
            Some(s) => s,
            None => {
                return Err(AppError::ImportFailed("path has no file stem".to_owned()));
            },
        };
        match read {
            Err(e) => {
                let q = quoted_path(path);
                Err(AppError::ImportFailed(text4("read ", q.as_str(), ": ", e.as_str())))
            },
            Ok(text) => self.import_text(stem.as_str(), text.as_str()),
        }
    }

    /// The profile that a text holds, with the path it will have in the store.
    fn import_text(&self, name: &str, text: &str) -> (r: AppResult<WgProfile>)
        ensures
            imported_into(r, self.dir, name@, text@),
    {
        match WgProfile::from_conf_str(name, text) {
            Ok(mut profile) => {
                let dest = self.conf_path(name);
                profile.path = Some(dest);
                Ok(profile)
            },
            Err(e) => Err(AppError::ImportFailed(e.to_string())),
        }
    }

    /// The profile that the QR code in a picture holds, named by the picture file's stem, or
    /// `qr-import` where it has none. Its path is the one it will have in the store.
    pub fn import_from_qr(&self, path: &PathBuf, decoded: AppResult<String>) -> (r: AppResult<
        WgProfile,
    >)
        ensures
            match decoded {
                Err(e) => r == Err::<WgProfile, AppError>(e),
                Ok(text) => imported_into(
                    r,
                    self.dir,
                    match crate::paths::path_stem(*path) {
                        Some(stem) => stem,
                        None => "qr-import"@,
                    },
                    text@,
                ),
            },
    {
        match decoded {
            Err(e) => Err(e),
            Ok(text) => {
                let name = match stem_of(path) {
                    Some(s) => s,
                    None => "qr-import".to_owned(),
                };
                self.import_text(name.as_str(), text.as_str())
            },
        }
    }

    /// The text to write when a stored profile is exported; `read` is what reading it gave.
    pub fn export_to_path(&self, read: AppResult<WgProfile>) -> (r: AppResult<String>)
        ensures
            match read {
                Ok(p) => r matches Ok(t) && t@ == crate::config::profile::conf_text(p@),
                Err(e) => r == Err::<String, AppError>(e),
            },
    {
        match read {
            Ok(p) => Ok(p.to_conf_string()),
            Err(e) => Err(e),
        }
    }
}

/// The store that was opened; where none could be, the current directory stands in for it.
pub fn or_current_dir(opened: AppResult<ProfileStore>) -> (r: ProfileStore)
    ensures
        match opened {
            Ok(s) => r == s,
            Err(_) => r.dir == crate::paths::path_of("."@),
        },
{
    match opened {
        Ok(s) => s,
        Err(_) => ProfileStore { dir: to_path(".") },
    }
}

/// The result of writing a profile's file.
pub fn written(done: Result<(), String>) -> (r: AppResult<()>)
    ensures
        match done {
            Ok(()) => r is Ok,
            Err(e) => r == Err::<(), AppError>(AppError::ProfileIo(e)),
        },
{
    match done {
        Ok(()) => Ok(()),
        Err(e) => Err(AppError::ProfileIo(e)),
    }
}

/// The result of writing an exported file.
pub fn exported(done: Result<(), String>) -> (r: AppResult<()>)
    ensures
        match done {
            Ok(()) => r is Ok,
            Err(e) => r == Err::<(), AppError>(AppError::ExportFailed(e)),
        },
{
    match done {
        Ok(()) => Ok(()),
        Err(e) => Err(AppError::ExportFailed(e)),
    }
}

// ── laws ────────────────────────────────────────────────────────────────────

/// A profile whose values `.conf` text can carry comes back from the store as it was saved, with
/// the path it has there: `r` is what reading the saved text gives.
pub proof fn law_saved_profile_reads_back(dir: PathBuf, p: ProfileModel, r: AppResult<WgProfile>)
    requires
        crate::config::round_trip::clean_profile(p),
        parsed_into(
            r,
            p.name,
            crate::config::profile::conf_text(p),
            Some(profile_path(dir, p.name)),
        ),
    ensures
        r matches Ok(q) && q@ == (ProfileModel { path: Some(profile_path(dir, p.name)), ..p }),
{
    crate::config::round_trip::law_conf_round_trip(p);
}

/// The list of profiles holds exactly the names of the profiles that the files hold: one with a
/// file is listed, and one without is not.
pub proof fn law_profiles_with_files_are_listed(files: Seq<PathBuf>, name: Seq<char>)
    ensures
        crate::order::sorted_texts(profiles_of_files(files)).contains(name) <==> exists|i: int|
            0 <= i < files.len() && profile_of_file(#[trigger] files[i]) == Some(name),
{
    broadcast use vstd::seq_lib::group_to_multiset_ensures;

    let names = profiles_of_files(files);
    let before = |a: Seq<char>, b: Seq<char>| crate::order::precedes(a, b);
    let sorted = crate::order::sorted_texts(names);
    crate::order::law_arranged_keeps_items(names, before);
    assert(sorted.to_multiset().count(name) == names.to_multiset().count(name));
    assert(sorted.contains(name) <==> names.contains(name));
    lemma_names_of_files(files, name);
}

/// Whether `files` are the files of a directory, in whatever order it gives them.
pub open spec fn lists(files: Seq<PathBuf>, disk: Map<PathBuf, FileModel>) -> bool {
    files.no_duplicates() && forall|f: PathBuf| #[trigger]
        files.contains(f) <==> disk.contains_key(f)
}

/// Whether each file that holds a profile stands in the directory `dir` under the profile's name.
pub open spec fn stands_in(disk: Map<PathBuf, FileModel>, dir: PathBuf) -> bool {
    forall|f: PathBuf| #[trigger]
        disk.contains_key(f) && profile_of_file(f) is Some ==> f == profile_path(
            dir,
            profile_of_file(f)->0,
        )
}

/// The files of the store's directory once a profile was to be created and what that gave was
/// done. A new file has the mode `fresh` until it is given another.
pub open spec fn store_after(
    disk: Map<PathBuf, FileModel>,
    path: PathBuf,
    r: AppResult<String>,
    fresh: u32,
) -> Map<PathBuf, FileModel> {
    match r {
        Ok(t) => crate::config::disk::steps_done(
            disk,
            crate::config::disk::private_steps(path, t@),
            fresh,
        ),
        Err(_) => disk,
    }
}

/// Whether creating a profile was refused because its name is taken.
pub open spec fn refused(r: AppResult<String>, name: Seq<char>) -> bool {
    r matches Err(AppError::ProfileExists(t)) && t@ == name
}

/// Creating a profile whose name is listed is refused, and no file changes. Else the file of its
/// name holds its text and only its owner can read it, every other profile stays as it was, and the
/// list of profiles is the old one with the new name, sorted. `files` and `after` are the files of
/// the store's directory before and after; `r` is what creating the profile gave. What is asked of
/// the two paths, `conf_path` and `private_write` give for every name that a file can have.
pub proof fn law_created_profile_is_stored(
    dir: PathBuf,
    p: ProfileModel,
    r: AppResult<String>,
    disk: Map<PathBuf, FileModel>,
    fresh: u32,
    files: Seq<PathBuf>,
    after: Seq<PathBuf>,
    other: Seq<char>,
)
    requires
        profile_of_file(profile_path(dir, p.name)) == Some(p.name),
        crate::paths::path_extension(crate::config::disk::draft_path(profile_path(dir, p.name)))
            == Some("tmp"@),
        stands_in(disk, dir),
        created(r, p, disk.contains_key(profile_path(dir, p.name))),
        lists(files, disk),
        lists(after, store_after(disk, profile_path(dir, p.name), r, fresh)),
    ensures
        ({
            let path = profile_path(dir, p.name);
            let now = store_after(disk, path, r, fresh);
            let names = crate::order::sorted_texts(profiles_of_files(files));
            let new_names = crate::order::sorted_texts(profiles_of_files(after));
            &&& names.contains(p.name) ==> refused(r, p.name) && now == disk
            &&& !names.contains(p.name) ==> r is Ok && now.contains_key(path) && now[path] == (
            FileModel {
                mode: crate::config::disk::PRIVATE_MODE,
                text: crate::config::profile::conf_text(p),
            }) && new_names == crate::order::sorted_texts(profiles_of_files(files).push(p.name))
            &&& other != p.name && names.contains(other) ==> now.contains_key(
                profile_path(dir, other),
            ) && now[profile_path(dir, other)] == disk[profile_path(dir, other)]
        }),
{
    let path = profile_path(dir, p.name);
    let draft = crate::config::disk::draft_path(path);
    let now = store_after(disk, path, r, fresh);
    reveal_strlit("tmp");
    reveal_strlit("conf");
    assert("tmp"@.len() != "conf"@.len());
    assert(draft != path && profile_of_file(draft) is None);
    lemma_listed(dir, disk, files, p.name);
    lemma_listed(dir, disk, files, other);
    if let Ok(t) = r {
        let steps = crate::config::disk::private_steps(path, t@);
        assert(steps.take(3) =~= steps);
        crate::config::disk::law_files_are_replaced_whole(
            disk,
            path,
            t@,
            fresh,
            3,
            profile_path(dir, other),
        );
        assert forall|f: PathBuf| f != path && f != draft implies now.contains_key(f)
            == disk.contains_key(f) by {
            crate::config::disk::law_files_are_replaced_whole(disk, path, t@, fresh, 3, f);
        }
        assert(stands_in(now, dir));
        let old_names = profiles_of_files(files);
        let new_names = profiles_of_files(after);
        lemma_distinct_names(dir, disk, files);
        lemma_distinct_names(dir, now, after);
        assert forall|n: Seq<char>| new_names.contains(n) <==> old_names.push(p.name).contains(
            n,
        ) by {
            lemma_listed(dir, disk, files, n);
            lemma_listed(dir, now, after, n);
            assert(old_names.push(p.name)[old_names.len() as int] == p.name);
            if old_names.contains(n) {
                let k = choose|k: int| 0 <= k < old_names.len() && old_names[k] == n;
                assert(old_names.push(p.name)[k] == n);
            }
        }
        lemma_same_items(new_names, old_names.push(p.name));
        crate::order::law_sorting_forgets_the_order(new_names, old_names.push(p.name));
    }
}

/// Texts that are listed once each, and the same in both lists, are the same texts.
proof fn lemma_same_items(a: Seq<Seq<char>>, b: Seq<Seq<char>>)
    requires
        a.no_duplicates(),
        b.no_duplicates(),
        forall|n: Seq<char>| a.contains(n) <==> b.contains(n),
    ensures
        a.to_multiset() == b.to_multiset(),
{
    broadcast use vstd::seq_lib::group_to_multiset_ensures;

    a.lemma_multiset_has_no_duplicates();
    b.lemma_multiset_has_no_duplicates();
    assert forall|n: Seq<char>| a.to_multiset().count(n) == b.to_multiset().count(n) by {
        assert(a.contains(n) <==> a.to_multiset().count(n) > 0);
        assert(b.contains(n) <==> b.to_multiset().count(n) > 0);
    }
    assert(a.to_multiset() =~= b.to_multiset());
}

/// A name is listed where the file of its name is there and holds it.
proof fn lemma_listed(
    dir: PathBuf,
    disk: Map<PathBuf, FileModel>,
    files: Seq<PathBuf>,
    name: Seq<char>,
)
    requires
        stands_in(disk, dir),
        lists(files, disk),
    ensures
        ({
            let there = disk.contains_key(profile_path(dir, name)) && profile_of_file(
                profile_path(dir, name),
            ) == Some(name);
            &&& profiles_of_files(files).contains(name) <==> there
            &&& crate::order::sorted_texts(profiles_of_files(files)).contains(name) <==> there
        }),
{
    law_profiles_with_files_are_listed(files, name);
    lemma_names_of_files(files, name);
    let path = profile_path(dir, name);
    if exists|i: int| 0 <= i < files.len() && profile_of_file(#[trigger] files[i]) == Some(name) {
        let i = choose|i: int|
            0 <= i < files.len() && profile_of_file(#[trigger] files[i]) == Some(name);
        assert(files.contains(files[i]));
        assert(disk.contains_key(files[i]));
        assert(files[i] == path);
    }
    if disk.contains_key(path) && profile_of_file(path) == Some(name) {
        assert(files.contains(path));
        let i = choose|i: int| 0 <= i < files.len() && files[i] == path;
        assert(profile_of_file(files[i]) == Some(name));
    }
}

/// No name is listed twice.
proof fn lemma_distinct_names(dir: PathBuf, disk: Map<PathBuf, FileModel>, files: Seq<PathBuf>)
    requires
        stands_in(disk, dir),
        files.no_duplicates(),
        forall|f: PathBuf| #[trigger] files.contains(f) ==> disk.contains_key(f),
    ensures
        profiles_of_files(files).no_duplicates(),
    decreases files.len(),
{
    if files.len() > 0 {
        let init = files.drop_last();
        let last = files.last();
        assert forall|f: PathBuf| #[trigger] init.contains(f) implies disk.contains_key(f) by {
            let i = choose|i: int| 0 <= i < init.len() && init[i] == f;
            assert(files[i] == f);
            assert(files.contains(f));
        }
        lemma_distinct_names(dir, disk, init);
        if let Some(n) = profile_of_file(last) {
            lemma_names_of_files(init, n);
            assert(files.contains(last));
            if profiles_of_files(init).contains(n) {
                let i = choose|i: int|
                    0 <= i < init.len() && profile_of_file(#[trigger] init[i]) == Some(n);
                assert(init.contains(init[i]));
                assert(disk.contains_key(init[i]) && disk.contains_key(last));
                assert(init[i] == last);
                assert(files[i] == files[files.len() - 1]);
            }
        }
    }
}

/// The names that files hold are those of the single files.
proof fn lemma_names_of_files(files: Seq<PathBuf>, name: Seq<char>)
    ensures
        profiles_of_files(files).contains(name) <==> exists|i: int|
            0 <= i < files.len() && profile_of_file(#[trigger] files[i]) == Some(name),
    decreases files.len(),
{
    if files.len() > 0 {
        let init = files.drop_last();
        let front = profiles_of_files(init);
        lemma_names_of_files(init, name);
        if profiles_of_files(files).contains(name) {
            if profile_of_file(files.last()) == Some(name) {
                assert(profile_of_file(files[files.len() - 1]) == Some(name));
            } else {
                let k = choose|k: int|
                    0 <= k < profiles_of_files(files).len() && profiles_of_files(files)[k] == name;
                assert(front[k] == name);
                assert(front.contains(name));
                let i = choose|i: int|
                    0 <= i < init.len() && profile_of_file(#[trigger] init[i]) == Some(name);
                assert(files[i] == init[i]);
            }
        }
        if exists|i: int| 0 <= i < files.len() && profile_of_file(#[trigger] files[i]) == Some(name) {
            let i = choose|i: int|
                0 <= i < files.len() && profile_of_file(#[trigger] files[i]) == Some(name);
            if i == files.len() - 1 {
                assert(profiles_of_files(files)[front.len() as int] == name);
            } else {
                assert(init[i] == files[i]);
                assert(front.contains(name));
                let k = choose|k: int| 0 <= k < front.len() && front[k] == name;
                assert(profiles_of_files(files)[k] == name);
            }
        }
    }
}

// ── sorting ─────────────────────────────────────────────────────────────────

/// What a row of profiles says.
pub open spec fn profile_views(v: Seq<WgProfile>) -> Seq<ProfileModel> {
    v.map_values(|p: WgProfile| p@)
}

/// The order of profiles by name, from the first name to the last or the other way round.
pub open spec fn name_order(ascending: bool) -> spec_fn(ProfileModel, ProfileModel) -> bool {
    if ascending {
        |a: ProfileModel, b: ProfileModel| crate::order::precedes(a.name, b.name)
    } else {
        |a: ProfileModel, b: ProfileModel| crate::order::precedes(b.name, a.name)
    }
}

/// The order by name is one.
pub proof fn lemma_name_order(ascending: bool)
    ensures
        crate::order::is_order(name_order(ascending)),
{
    crate::order::lemma_text_order();
    let up = |a: Seq<char>, b: Seq<char>| crate::order::precedes(a, b);
    let before = name_order(ascending);
    assert forall|x: ProfileModel| !#[trigger] before(x, x) by {
        assert(!up(x.name, x.name));
    }
    assert forall|x: ProfileModel, y: ProfileModel, z: ProfileModel| #[trigger]
        before(x, y) && #[trigger] before(y, z) implies before(x, z) by {
        if ascending {
            assert(up(x.name, y.name) && up(y.name, z.name));
        } else {
            assert(up(z.name, y.name) && up(y.name, x.name));
        }
    }
    assert forall|x: ProfileModel, y: ProfileModel, z: ProfileModel|
        !#[trigger] before(x, y) && !#[trigger] before(y, z) implies !before(x, z) by {
        if ascending {
            assert(!up(x.name, y.name) && !up(y.name, z.name));
        } else {
            assert(!up(z.name, y.name) && !up(y.name, x.name));
        }
    }
}

/// Sorts profiles by name, from the first name to the last or the other way round. Profiles of
/// one name stay as they stood to each other.
pub fn sort_profiles(profiles: Vec<WgProfile>, ascending: bool) -> (r: Vec<WgProfile>)
    ensures
        profile_views(r@) == crate::order::arranged(
            profile_views(profiles@),
            name_order(ascending),
        ),
{
    let ghost before = name_order(ascending);
    let ghost pv = profile_views(profiles@);
    let mut rest = profiles;
    let mut out: Vec<WgProfile> = Vec::new();
    let n: usize = rest.len();
    let mut i: usize = 0;
    assert(profile_views(out@) =~= pv.take(0));
    rest = reversed(rest);
    while i < n
        invariant
            i <= n,
            n == pv.len(),
            rest@.len() == n - i,
            forall|j: int| 0 <= j < n - i ==> (#[trigger] rest@[j])@ == pv[n - 1 - j],
            before == name_order(ascending),
            profile_views(out@) == crate::order::arranged(pv.take(i as int), before),
        decreases n - i,
    {
        let ghost ov = profile_views(out@);
        let ghost last = rest@[n - i - 1]@;
        let next = rest.pop();
        if let Some(profile) = next {
            assert(profile@ == pv[i as int]);
            let mut p: usize = 0;
            while p < out.len() && !stands_before(&profile, &out[p], ascending)
                invariant
                    p <= out@.len(),
                    ov == profile_views(out@),
                    before == name_order(ascending),
                    forall|j: int| 0 <= j < p ==> !before(profile@, #[trigger] ov[j]),
                decreases out@.len() - p,
            {
                assert(ov[p as int] == out@[p as int]@);
                p += 1;
            }
            proof {
                if p < out@.len() {
                    assert(ov[p as int] == out@[p as int]@);
                }
                crate::order::lemma_place_is(ov, profile@, before, p as nat);
                assert(pv.take(i as int + 1).drop_last() =~= pv.take(i as int));
            }
            let ghost m = profile@;
            out.insert(p, profile);
            assert(profile_views(out@) =~= ov.insert(p as int, m));
        }
        i += 1;
    }
    assert(pv.take(i as int) =~= pv);
    out
}

/// Whether one profile stands before another in the order by name.
fn stands_before(a: &WgProfile, b: &WgProfile, ascending: bool) -> (r: bool)
    ensures
        r == name_order(ascending)(a@, b@),
{
    if ascending {
        text_before(a.name.as_str(), b.name.as_str())
    } else {
        text_before(b.name.as_str(), a.name.as_str())
    }
}

/// The profiles from the last to the first.
fn reversed(profiles: Vec<WgProfile>) -> (r: Vec<WgProfile>)
    ensures
        r@.len() == profiles@.len(),
        forall|j: int|
            0 <= j < r@.len() ==> #[trigger] r@[j] == profiles@[profiles@.len() - 1 - j],
{
    let ghost all = profiles@;
    let mut rest = profiles;
    let mut out: Vec<WgProfile> = Vec::new();
    while rest.len() > 0
        invariant
            out@.len() + rest@.len() == all.len(),
            rest@ == all.take(rest@.len() as int),
            forall|j: int| 0 <= j < out@.len() ==> #[trigger] out@[j] == all[all.len() - 1 - j],
        decreases rest@.len(),
    {
        if let Some(p) = rest.pop() {
            out.push(p);
        }
        assert(rest@ =~= all.take(rest@.len() as int));
    }
    out
}

/// The profiles among the results of reading them, in their order.
pub open spec fn readable(results: Seq<AppResult<WgProfile>>) -> Seq<ProfileModel>
    decreases results.len(),
{
    if results.len() == 0 {
        Seq::empty()
    } else {
        let front = readable(results.drop_last());
        match results.last() {
            Ok(p) => front.push(p@),
            Err(_) => front,
        }
    }
}

/// All profiles that could be read, by name. One that could not is left out.
pub fn load_all_profiles(results: Vec<AppResult<WgProfile>>) -> (r: Vec<WgProfile>)
    ensures
        profile_views(r@) == crate::order::arranged(readable(results@), name_order(true)),
{
    let ghost all = results@;
    let mut found: Vec<WgProfile> = Vec::new();
    let mut i: usize = 0;
    assert(profile_views(found@) =~= readable(all.take(0)));
    while i < results.len()
        invariant
            i <= results@.len(),
            all == results@,
            profile_views(found@) == readable(all.take(i as int)),
        decreases results@.len() - i,
    {
        assert(all.take(i as int + 1).drop_last() =~= all.take(i as int));
        let ghost before = profile_views(found@);
        if let Ok(p) = &results[i] {
            let copy = p.duplicate();
            found.push(copy);
            assert(profile_views(found@) =~= before.push(p@));
        }
        i += 1;
    }
    assert(all.take(i as int) =~= all);
    sort_profiles(found, true)
}

} // verus!
