//! The store of profiles: what it makes of the files it is given.

use std::collections::HashMap;
use std::path::PathBuf;
use wireguard_gui::config::profile::{InterfaceSection, PeerSection, WgProfile};
use wireguard_gui::config::disk::{private_write, FileStep};
use wireguard_gui::config::store::{
    exported, load_all_profiles, or_current_dir, sort_profiles, written, ConfRead, DirRead, ProfileStore,
};
use wireguard_gui::error::AppError;

const ZERO_KEY: &str = "AAAAAAAAAAAAAAAAAAAAAAAAAAAAAAAAAAAAAAAAAAA=";

fn make_profile(name: &str) -> WgProfile {
    WgProfile {
        name: name.to_owned(),
        interface: InterfaceSection {
            private_key: ZERO_KEY.to_owned(),
            address: vec!["10.0.0.1/24".to_owned()],
            ..Default::default()
        },
        peers: vec![PeerSection {
            public_key: ZERO_KEY.to_owned(),
            allowed_ips: vec!["0.0.0.0/0".to_owned()],
            ..Default::default()
        }],
        path: None,
    }
}

fn store() -> ProfileStore {
    ProfileStore::at(PathBuf::from("/profiles"), Ok(())).unwrap()
}

fn names(profiles: &[WgProfile]) -> Vec<&str> {
    profiles.iter().map(|p| p.name.as_str()).collect()
}

#[test]
fn create_and_list_profile() {
    let store = store();
    let profile = make_profile("wg0");
    store.create_profile(&profile, false).unwrap();
    let files = vec![store.conf_path(&profile.name)];
    let names = store.list_profiles(DirRead::Files(files)).unwrap();
    assert_eq!(names, vec!["wg0"]);
}

#[test]
fn list_empty_store() {
    let names = store().list_profiles(DirRead::Files(Vec::new())).unwrap();
    assert!(names.is_empty());
}

#[test]
fn create_duplicate_returns_exists_error() {
    let store = store();
    let profile = make_profile("wg0");
    store.create_profile(&profile, false).unwrap();
    let err = store.create_profile(&profile, true).unwrap_err();
    assert!(
        matches!(err, AppError::ProfileExists(_)),
        "expected ProfileExists, got {err:?}"
    );
    assert_eq!(err.to_string(), "[E103] profile already exists: wg0");
}

#[test]
fn delete_profile_removes_file() {
    let store = store();
    store.delete_profile("wg0", true, Ok(())).unwrap();
    let names = store.list_profiles(DirRead::Files(Vec::new())).unwrap();
    assert!(names.is_empty());
}

#[test]
fn delete_nonexistent_returns_not_found() {
    let err = store().delete_profile("ghost", false, Ok(())).unwrap_err();
    assert!(
        matches!(err, AppError::ProfileNotFound(_)),
        "expected ProfileNotFound, got {err:?}"
    );
    assert_eq!(err.to_string(), "[E102] profile not found: ghost");
}

/// Does the steps of writing a file on files kept in a map, as far as `done`.
fn after_steps(
    disk: &HashMap<PathBuf, (u32, String)>,
    steps: Vec<FileStep>,
    done: usize,
) -> HashMap<PathBuf, (u32, String)> {
    let mut now = disk.clone();
    for step in steps.into_iter().take(done) {
        match step {
            FileStep::Write { path, text } => {
                let mode = now.get(&path).map_or(0o644, |f| f.0);
                now.insert(path, (mode, text));
            }
            FileStep::Protect { path, mode } => now.get_mut(&path).unwrap().0 = mode,
            FileStep::Rename { from, to } => {
                let file = now.remove(&from).unwrap();
                now.insert(to, file);
            }
        }
    }
    now
}

#[test]
fn a_file_is_replaced_whole_and_privately() {
    let path = PathBuf::from("/profiles/wg0.conf");
    let old = (0o644, "old".to_owned());
    let disk = HashMap::from([
        (path.clone(), old.clone()),
        (PathBuf::from("/profiles/other.conf"), (0o600, "other".to_owned())),
    ]);
    let steps = || private_write(&path, "new".to_owned());
    assert_eq!(steps().len(), 3);
    for done in 0..3 {
        assert_eq!(after_steps(&disk, steps(), done)[&path], old);
    }
    let mut expected = disk.clone();
    expected.insert(path.clone(), (0o600, "new".to_owned()));
    assert_eq!(after_steps(&disk, steps(), 3), expected);
    match &steps()[0] {
        FileStep::Write { path, .. } => {
            assert_eq!(path, &PathBuf::from("/profiles/wg0.conf.tmp"));
        }
        other => panic!("unexpected: {other:?}"),
    }
}

#[test]
fn a_created_profile_is_stored() {
    let store = store();
    let taken = store.conf_path("zebra");
    let disk = HashMap::from([(taken.clone(), (0o600, "z".to_owned()))]);
    let profile = make_profile("alpha");
    let path = store.conf_path("alpha");
    let text = store.create_profile(&profile, disk.contains_key(&path)).unwrap();
    let now = after_steps(&disk, private_write(&path, text), 3);
    assert_eq!(now.len(), 2);
    assert_eq!(now[&path], (0o600, profile.to_conf_string()));
    assert_eq!(now[&taken], disk[&taken]);
    let files: Vec<PathBuf> = now.keys().cloned().collect();
    assert_eq!(store.list_profiles(DirRead::Files(files)).unwrap(), vec!["alpha", "zebra"]);
    assert!(store.create_profile(&make_profile("zebra"), disk.contains_key(&taken)).is_err());
}

#[test]
fn a_created_profile_joins_the_list() {
    let store = store();
    let old = vec![store.conf_path("zebra"), store.conf_path("alpha")];
    assert!(store.create_profile(&make_profile("mango"), false).is_ok());
    for at in 0..=old.len() {
        let mut files = old.clone();
        files.insert(at, store.conf_path("mango"));
        let names = store.list_profiles(DirRead::Files(files)).unwrap();
        assert_eq!(names, vec!["alpha", "mango", "zebra"]);
    }
}

#[test]
fn list_sorted_alphabetically() {
    let store = store();
    let files = vec![
        store.conf_path("zebra"),
        store.conf_path("alpha"),
        store.conf_path("mango"),
    ];
    let names = store.list_profiles(DirRead::Files(files)).unwrap();
    assert_eq!(names, vec!["alpha", "mango", "zebra"]);
}

#[test]
fn read_profile_round_trips_data() {
    let store = store();
    let text = store.create_profile(&make_profile("wg0"), false).unwrap();
    let loaded = store.read_profile("wg0", ConfRead::Text(text)).unwrap();
    assert_eq!(loaded.name, "wg0");
    assert_eq!(loaded.interface.private_key, ZERO_KEY);
    assert_eq!(loaded.interface.address, vec!["10.0.0.1/24"]);
    assert_eq!(loaded.peers[0].public_key, ZERO_KEY);
    assert_eq!(loaded.path, Some(PathBuf::from("/profiles/wg0.conf")));
}

#[test]
fn read_nonexistent_returns_not_found() {
    let err = store().read_profile("ghost", ConfRead::Missing).unwrap_err();
    assert!(
        matches!(err, AppError::ProfileNotFound(_)),
        "expected ProfileNotFound, got {err:?}"
    );
}

#[test]
fn save_overwrites_existing() {
    let store = store();
    let mut updated = make_profile("wg0");
    updated.interface.address = vec!["10.99.99.1/24".to_owned()];
    let text = store.save_profile(&updated);
    let loaded = store.read_profile("wg0", ConfRead::Text(text)).unwrap();
    assert_eq!(loaded.interface.address, vec!["10.99.99.1/24"]);
}

#[test]
fn import_from_path_adds_profile() {
    let store = store();
    let conf = format!(
        "[Interface]\nPrivateKey = {ZERO_KEY}\nAddress = 10.0.0.1/24\n\n\
         [Peer]\nPublicKey = {ZERO_KEY}\nAllowedIPs = 0.0.0.0/0\n"
    );
    let src = PathBuf::from("/downloads/myprofile.conf");
    let imported = store.import_from_path(&src, Ok(conf)).unwrap();
    assert_eq!(imported.name, "myprofile");
    assert_eq!(imported.path, Some(PathBuf::from("/profiles/myprofile.conf")));
    let files = vec![imported.path.clone().unwrap()];
    let names = store.list_profiles(DirRead::Files(files)).unwrap();
    assert!(names.contains(&"myprofile".to_owned()));
}

#[test]
fn export_to_path_writes_conf() {
    let store = store();
    let content = store.export_to_path(Ok(make_profile("wg0"))).unwrap();
    assert!(content.contains("PrivateKey"), "exported file should contain key");
    assert_eq!(content, make_profile("wg0").to_conf_string());
}

#[test]
fn conf_path_is_in_the_directory() {
    assert_eq!(store().conf_path("wg0"), PathBuf::from("/profiles/wg0.conf"));
}

#[test]
fn only_conf_files_are_profiles() {
    let files = vec![
        PathBuf::from("/profiles/b.conf"),
        PathBuf::from("/profiles/notes.txt"),
        PathBuf::from("/profiles/b.conf.tmp"),
        PathBuf::from("/profiles/CONF"),
        PathBuf::from("/profiles/.conf"),
        PathBuf::from("/profiles/a.b.conf"),
    ];
    let names = store().list_profiles(DirRead::Files(files)).unwrap();
    assert_eq!(names, vec!["a.b", "b"]);
}

#[test]
fn listing_goes_by_bytes() {
    let files = ["é", "z", "Z", "a10", "a2", "a"]
        .iter()
        .map(|n| store().conf_path(n))
        .collect();
    let names = store().list_profiles(DirRead::Files(files)).unwrap();
    assert_eq!(names, vec!["Z", "a", "a10", "a2", "z", "é"]);
}

#[test]
fn a_store_without_a_place_fails() {
    let err = ProfileStore::new(None, Ok(())).unwrap_err();
    assert_eq!(
        err.to_string(),
        "[E106] profile I/O error: cannot locate user config directory"
    );
}

#[test]
fn a_store_that_cannot_be_made_fails() {
    let err = ProfileStore::new(Some(PathBuf::from("/x y")), Err("denied".to_owned())).unwrap_err();
    assert_eq!(
        err.to_string(),
        "[E106] profile I/O error: create_dir_all \"/x y\": denied"
    );
    assert_eq!(
        ProfileStore::new(Some(PathBuf::from("/x")), Ok(())).unwrap().dir,
        PathBuf::from("/x")
    );
}

#[test]
fn the_current_directory_stands_in_for_a_store() {
    let none = or_current_dir(ProfileStore::new(None, Ok(())));
    assert_eq!(none.dir, PathBuf::from("."));
    assert_eq!(or_current_dir(Ok(store())).dir, PathBuf::from("/profiles"));
}

#[test]
fn unreadable_directories_are_reported() {
    let store = store();
    assert_eq!(
        store.list_profiles(DirRead::Unreadable("gone".to_owned())).unwrap_err().to_string(),
        "[E106] profile I/O error: read_dir \"/profiles\": gone"
    );
    assert_eq!(
        store.list_profiles(DirRead::BadEntry("odd".to_owned())).unwrap_err().to_string(),
        "[E106] profile I/O error: dir entry: odd"
    );
}

#[test]
fn unreadable_files_are_reported() {
    let store = store();
    assert_eq!(
        store
            .read_profile("wg0", ConfRead::Unreadable("locked".to_owned()))
            .unwrap_err()
            .to_string(),
        "[E106] profile I/O error: read \"/profiles/wg0.conf\": locked"
    );
    assert_eq!(
        store.delete_profile("wg0", true, Err("busy".to_owned())).unwrap_err().to_string(),
        "[E106] profile I/O error: remove \"/profiles/wg0.conf\": busy"
    );
    let elsewhere = PathBuf::from("/tmp/a.conf");
    assert_eq!(
        store.import_from_path(&elsewhere, Err("gone".to_owned())).unwrap_err().to_string(),
        "[E801] import failed: read \"/tmp/a.conf\": gone"
    );
}

#[test]
fn a_path_without_a_stem_cannot_be_imported() {
    let err = store().import_from_path(&PathBuf::from("/"), Ok(String::new())).unwrap_err();
    assert_eq!(err.to_string(), "[E801] import failed: path has no file stem");
}

#[test]
fn a_bad_file_is_an_import_failure() {
    let bad = "PrivateKey = x\n".to_owned();
    let err = store().import_from_path(&PathBuf::from("/tmp/a.conf"), Ok(bad.clone())).unwrap_err();
    assert!(matches!(err, AppError::ImportFailed(_)));
    assert!(err.to_string().starts_with("[E801] import failed: [E104] failed to parse profile 'a': "));
    let read = store().read_profile("a", ConfRead::Text(bad)).unwrap_err();
    assert!(matches!(read, AppError::ProfileParseError { .. }));
}

#[test]
fn a_qr_code_is_named_by_its_picture() {
    let store = store();
    let conf = make_profile("x").to_conf_string();
    let named = store.import_from_qr(&PathBuf::from("/tmp/phone.png"), Ok(conf.clone())).unwrap();
    assert_eq!(named.name, "phone");
    assert_eq!(named.path, Some(PathBuf::from("/profiles/phone.conf")));
    let unnamed = store.import_from_qr(&PathBuf::from("/"), Ok(conf)).unwrap();
    assert_eq!(unnamed.name, "qr-import");
    let err = store
        .import_from_qr(&PathBuf::from("/"), Err(AppError::ImportFailed("blur".to_owned())))
        .unwrap_err();
    assert_eq!(err.to_string(), "[E801] import failed: blur");
}

#[test]
fn an_unreadable_profile_is_not_exported() {
    let err = store()
        .export_to_path(Err(AppError::ProfileNotFound("wg0".to_owned())))
        .unwrap_err();
    assert_eq!(err.to_string(), "[E102] profile not found: wg0");
}

#[test]
fn failures_of_writing_are_told_apart() {
    assert!(written(Ok(())).is_ok());
    assert!(exported(Ok(())).is_ok());
    assert_eq!(
        written(Err("full".to_owned())).unwrap_err().to_string(),
        "[E106] profile I/O error: full"
    );
    assert_eq!(
        exported(Err("full".to_owned())).unwrap_err().to_string(),
        "[E802] export failed: full"
    );
}

#[test]
fn sorting_goes_both_ways() {
    let all = vec![make_profile("b"), make_profile("a"), make_profile("c")];
    let up = sort_profiles(all, true);
    assert_eq!(names(&up), vec!["a", "b", "c"]);
    let down = sort_profiles(up, false);
    assert_eq!(names(&down), vec!["c", "b", "a"]);
}

#[test]
fn sorting_is_stable() {
    let mut first = make_profile("same");
    first.interface.mtu = Some(1);
    let mut second = make_profile("same");
    second.interface.mtu = Some(2);
    for ascending in [true, false] {
        let sorted = sort_profiles(
            vec![first.clone(), make_profile("m"), second.clone()],
            ascending,
        );
        let mtus: Vec<Option<u16>> =
            sorted.iter().filter(|p| p.name == "same").map(|p| p.interface.mtu).collect();
        assert_eq!(mtus, vec![Some(1), Some(2)]);
    }
}

#[test]
fn unreadable_profiles_are_left_out() {
    let loaded = load_all_profiles(vec![
        Ok(make_profile("b")),
        Err(AppError::ProfileNotFound("x".to_owned())),
        Ok(make_profile("a")),
    ]);
    assert_eq!(names(&loaded), vec!["a", "b"]);
}
