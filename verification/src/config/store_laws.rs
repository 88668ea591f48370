//! What keeping profiles in files comes to.

use crate::config::profile::WgProfile;
use crate::config::store::{ConfRead, DirRead, ProfileStore};
use crate::error::{AppError, AppResult};
use std::path::PathBuf;
use vstd::prelude::*;

verus! {

/// What files hold as profiles is what those files hold that end in `.conf`.
proof fn lemma_names_of_files(files: Seq<PathBuf>, name: Seq<char>)
    ensures
        crate::config::store::profiles_of_files(files).contains(name) <==> exists|i: int|
            0 <= i < files.len() && crate::paths::path_extension(#[trigger] files[i]) == Some(
                "conf"@,
            ) && crate::paths::path_stem(files[i]) == Some(name),
    decreases files.len(),
{
    let all = crate::config::store::profiles_of_files(files);
    if files.len() > 0 {
        let front = files.drop_last();
        let before = crate::config::store::profiles_of_files(front);
        lemma_names_of_files(front, name);
        let n = files.len() - 1;
        if all.contains(name) {
            let k = choose|k: int| 0 <= k < all.len() && all[k] == name;
            if k < before.len() {
                assert(before[k] == name);
                assert(before.contains(name));
                let i = choose|i: int|
                    0 <= i < front.len() && crate::paths::path_extension(#[trigger] front[i])
                        == Some("conf"@) && crate::paths::path_stem(front[i]) == Some(name);
                assert(files[i] == front[i]);
            } else {
                assert(crate::paths::path_extension(files[n]) == Some("conf"@));
            }
        }
        if exists|i: int|
            0 <= i < files.len() && crate::paths::path_extension(#[trigger] files[i]) == Some(
                "conf"@,
            ) && crate::paths::path_stem(files[i]) == Some(name) {
            let i = choose|i: int|
                0 <= i < files.len() && crate::paths::path_extension(#[trigger] files[i]) == Some(
                    "conf"@,
                ) && crate::paths::path_stem(files[i]) == Some(name);
            if i < n {
                assert(front[i] == files[i]);
                assert(before.contains(name));
                let k = choose|k: int| 0 <= k < before.len() && before[k] == name;
                assert(all[k] == name);
            } else {
                assert(all[before.len() as int] == name);
            }
        }
    }
}

/// A profile is listed exactly when there is a file of its name that ends in `.conf`; and the names
/// stand in order.
pub proof fn law_files_are_profiles(
    store: ProfileStore,
    files: Vec<PathBuf>,
    r: AppResult<Vec<String>>,
    name: Seq<char>,
)
    requires
        call_ensures(ProfileStore::list_profiles, (&store, DirRead::Files(files)), r),
    ensures
        r is Ok,
        crate::text::views(r->Ok_0@).contains(name) <==> exists|i: int|
            0 <= i < files@.len() && crate::paths::path_extension(#[trigger] files@[i]) == Some(
                "conf"@,
            ) && crate::paths::path_stem(files@[i]) == Some(name),
        forall|i: int, j: int|
            0 <= i < j < r->Ok_0@.len() ==> !crate::order::precedes(
                #[trigger] crate::text::views(r->Ok_0@)[j],
                #[trigger] crate::text::views(r->Ok_0@)[i],
            ),
{
    let names = crate::config::store::profiles_of_files(files@);
    let before = |a: Seq<char>, b: Seq<char>| crate::order::precedes(a, b);
    crate::order::lemma_text_order();
    crate::order::law_arranged_is_sorted(names, before);
    crate::order::law_arranged_keeps_items(names, before);
    let sorted = crate::order::sorted_texts(names);
    assert(crate::text::views(r->Ok_0@) == sorted);
    lemma_names_of_files(files@, name);
    sorted.to_multiset_ensures();
    names.to_multiset_ensures();
    assert(sorted.contains(name) <==> sorted.to_multiset().count(name) > 0);
    assert(names.contains(name) <==> names.to_multiset().count(name) > 0);
    assert forall|i: int, j: int| 0 <= i < j < r->Ok_0@.len() implies !crate::order::precedes(
        #[trigger] crate::text::views(r->Ok_0@)[j],
        #[trigger] crate::text::views(r->Ok_0@)[i],
    ) by {
        assert(!before(sorted[j], sorted[i]));
    }
}

/// A profile that is not there is told from one that cannot be read; one that was read has the
/// name it was asked for by, and the path of its file.
pub proof fn law_reading_a_profile(
    store: ProfileStore,
    name: &str,
    read: ConfRead,
    r: AppResult<WgProfile>,
)
    requires
        call_ensures(ProfileStore::read_profile, (&store, name, read), r),
    ensures
        (r is Err && r->Err_0 is ProfileNotFound) <==> read is Missing,
        (r is Err && r->Err_0 is ProfileIo) <==> read is Unreadable,
        r is Ok ==> read is Text && r->Ok_0@.name == name@ && r->Ok_0@.path == Some(
            crate::paths::path_joined(store.dir, name@ + ".conf"@),
        ),
        r is Ok ==> crate::config::profile::parsed_conf(name@, read->Text_0@) is Ok
            && r->Ok_0@.interface == crate::config::profile::parsed_conf(
            name@,
            read->Text_0@,
        )->Ok_0.interface && r->Ok_0@.peers == crate::config::profile::parsed_conf(
            name@,
            read->Text_0@,
        )->Ok_0.peers,
        read is Missing ==> r->Err_0->ProfileNotFound_0@ == name@,
{
}

/// A new profile is never written over another; saving one writes it whether it is there or not,
/// and either way what is written is the same text.
pub proof fn law_creating_does_not_overwrite(
    store: ProfileStore,
    p: WgProfile,
    new: AppResult<String>,
    again: AppResult<String>,
    saved: String,
)
    requires
        call_ensures(ProfileStore::create_profile, (&store, &p, false), new),
        call_ensures(ProfileStore::create_profile, (&store, &p, true), again),
        call_ensures(ProfileStore::save_profile, (&store, &p), saved),
    ensures
        new is Ok && new->Ok_0@ == saved@,
        again is Err && again->Err_0 is ProfileExists && again->Err_0->ProfileExists_0@ == p.name@,
{
}

/// A profile is deleted exactly when its file was there and was removed.
pub proof fn law_deleting_removes_the_file(
    store: ProfileStore,
    name: &str,
    present: bool,
    removed: Result<(), String>,
    r: AppResult<()>,
)
    requires
        call_ensures(ProfileStore::delete_profile, (&store, name, present, removed), r),
    ensures
        r is Ok <==> present && removed is Ok,
        (r is Err && r->Err_0 is ProfileNotFound) <==> !present,
        !present ==> r->Err_0->ProfileNotFound_0@ == name@,
        present && removed is Err ==> r->Err_0 is ProfileIo && r->Err_0->ProfileIo_0@ == "remove "@
            + crate::paths::path_quoted(
            crate::paths::path_joined(store.dir, name@ + ".conf"@),
        ) + ": "@ + removed->Err_0@,
{
}

/// An imported profile has the name of the file it comes from, and a file of its own in the store.
pub proof fn law_imports_take_the_name_of_the_file(
    store: ProfileStore,
    path: PathBuf,
    text: String,
    r: AppResult<WgProfile>,
    q: AppResult<WgProfile>,
)
    requires
        call_ensures(
            ProfileStore::import_from_path,
            (&store, &path, Ok::<String, String>(text)),
            r,
        ),
        call_ensures(
            ProfileStore::import_from_qr,
            (&store, &path, Ok::<String, AppError>(text)),
            q,
        ),
    ensures
        r is Ok ==> crate::paths::path_stem(path) == Some(r->Ok_0@.name) && r->Ok_0@.path == Some(
            crate::paths::path_joined(store.dir, r->Ok_0@.name + ".conf"@),
        ),
        q is Ok ==> q->Ok_0@.path == Some(
            crate::paths::path_joined(store.dir, q->Ok_0@.name + ".conf"@),
        ),
        q is Ok && crate::paths::path_stem(path) is None ==> q->Ok_0@.name == "qr-import"@,
        crate::paths::path_stem(path) is Some ==> (r is Ok <==> q is Ok),
        crate::paths::path_stem(path) is Some && r is Ok ==> r->Ok_0@ == q->Ok_0@,
        r is Err ==> r->Err_0 is ImportFailed,
        q is Err ==> q->Err_0 is ImportFailed,
{
}

/// What is exported is what would be saved.
pub proof fn law_exports_are_what_is_saved(
    store: ProfileStore,
    p: WgProfile,
    e: AppError,
    r: AppResult<String>,
    f: AppResult<String>,
    saved: String,
)
    requires
        call_ensures(ProfileStore::export_to_path, (&store, Ok::<WgProfile, AppError>(p)), r),
        call_ensures(ProfileStore::export_to_path, (&store, Err::<WgProfile, AppError>(e)), f),
        call_ensures(ProfileStore::save_profile, (&store, &p), saved),
    ensures
        r is Ok && r->Ok_0@ == saved@,
        f == Err::<String, AppError>(e),
{
}

/// Profiles sorted by name stand in order, forwards or backwards, and none is lost or added.
pub proof fn law_sorting_sorts(profiles: Vec<WgProfile>, ascending: bool, r: Vec<WgProfile>)
    requires
        call_ensures(crate::config::store::sort_profiles, (profiles, ascending), r),
    ensures
        r@.len() == profiles@.len(),
        crate::config::store::profile_views(r@).to_multiset()
            == crate::config::store::profile_views(profiles@).to_multiset(),
        forall|i: int, j: int|
            0 <= i < j < r@.len() ==> !(if ascending {
                crate::order::precedes((#[trigger] r@[j]).name@, (#[trigger] r@[i]).name@)
            } else {
                crate::order::precedes(r@[i].name@, r@[j].name@)
            }),
{
    let order = crate::config::store::name_order(ascending);
    let was = crate::config::store::profile_views(profiles@);
    let now = crate::config::store::profile_views(r@);
    crate::config::store::lemma_name_order(ascending);
    crate::order::law_arranged_is_sorted(was, order);
    crate::order::law_arranged_keeps_items(was, order);
    was.to_multiset_ensures();
    now.to_multiset_ensures();
    assert(was.len() == profiles@.len() && now.len() == r@.len());
    assert forall|i: int, j: int| 0 <= i < j < r@.len() implies !(if ascending {
        crate::order::precedes((#[trigger] r@[j]).name@, (#[trigger] r@[i]).name@)
    } else {
        crate::order::precedes(r@[i].name@, r@[j].name@)
    }) by {
        assert(now[i].name == r@[i].name@ && now[j].name == r@[j].name@);
        assert(!order(now[j], now[i]));
    }
}

/// The order of names is that of dictionaries: a name stands before those that it begins, and
/// otherwise the first character that differs decides.
pub proof fn law_names_stand_as_in_a_dictionary(
    head: Seq<char>,
    a: char,
    b: char,
    x: Seq<char>,
    y: Seq<char>,
)
    ensures
        crate::order::precedes(head, head + seq![a] + x),
        !crate::order::precedes(head + seq![a] + x, head),
        a < b ==> crate::order::precedes(head + seq![a] + x, head + seq![b] + y),
        a > b ==> !crate::order::precedes(head + seq![a] + x, head + seq![b] + y),
    decreases head.len(),
{
    let one = head + seq![a] + x;
    let two = head + seq![b] + y;
    if head.len() > 0 {
        let rest = head.skip(1);
        law_names_stand_as_in_a_dictionary(rest, a, b, x, y);
        assert(one[0] == head[0] && two[0] == head[0]);
        assert(one.skip(1) =~= rest + seq![a] + x);
        assert(two.skip(1) =~= rest + seq![b] + y);
    } else {
        assert(one[0] == a && two[0] == b);
    }
}

/// A file that only its owner can read and write is put in place: it is written beside its place
/// first, protected, and only then renamed.
pub proof fn law_files_are_private(path: PathBuf, text: String, r: Vec<crate::config::disk::FileStep>)
    requires
        call_ensures(crate::config::disk::private_write, (&path, text), r),
    ensures
        ({
            let steps = crate::config::disk::file_step_views(r@);
            let beside = crate::paths::path_with_extension(path, "conf.tmp"@);
            &&& steps.len() == 3
            &&& steps[0] is Write && steps[0]->Write_path == beside && steps[0]->text == text@
            &&& steps[1] is Protect && steps[1]->Protect_path == beside && steps[1]->mode == 0o600
            &&& steps[2] is Rename && steps[2]->from == beside && steps[2]->to == path
        }),
{
}

} // verus!
