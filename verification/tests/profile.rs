use coduck::error::Error;
use coduck::json::Json;
use coduck::process::Delivery;
use coduck::profile::{
    accept_record, check_dir, home_directory, listed_dir, open_private, private_dir, read_record,
    remove_private, validate_name, ClearNext, DirectoryFacts, DirectoryNext, Found, Identity,
    LockStep, Metadata, Opened, ProfileGuard, ProfileStore, ProfileSummary, ReadNext, RemoveNext,
    Runtime, SaveStep, MAX_RECORD,
};
use coduck::rpc::FrameReader;

fn bytes(text: &str) -> Vec<u8> {
    text.as_bytes().to_vec()
}

fn identity(account: &str, user: &str, email: Option<&str>) -> Identity {
    Identity {
        account_id: account.to_owned(),
        user_id: user.to_owned(),
        email: email.map(|text| text.to_owned()),
        plan_type: "plus".to_owned(),
    }
}

fn copy(record: &Runtime) -> Option<Runtime> {
    Some(Runtime { pending_spawn: record.pending_spawn, groups: record.groups.clone() })
}

fn guard(name: &str) -> ProfileGuard {
    ProfileStore::new(bytes("/state")).lock(name, true).ok().unwrap().0
}

#[test]
fn living_recorded_process_group_blocks_recovery_until_it_exits() {
    let begun = ProfileGuard::begin_spawn(None).ok().unwrap();
    let record = ProfileGuard::register_group(Some(begun), 4711).ok().unwrap();
    assert_eq!(record.groups, vec![4711]);
    let record = Some(record);
    assert!(matches!(
        ProfileGuard::clear_runtime(&record, &Vec::new()),
        ClearNext::Probe(4711)
    ));
    let alive = ProfileGuard::group_gone(&Delivery::Sent);
    assert!(matches!(
        ProfileGuard::clear_runtime(&record, &vec![alive]),
        ClearNext::Failed(Error::ChildMayBeRunning)
    ));
    let gone = ProfileGuard::group_gone(&Delivery::NoSuchGroup);
    assert!(matches!(ProfileGuard::clear_runtime(&record, &vec![gone]), ClearNext::Remove));
    assert!(matches!(ProfileGuard::clear_runtime(&None, &Vec::new()), ClearNext::Done));
}

#[test]
fn failed_spawn_can_be_cancelled_but_interrupted_spawn_blocks_reuse() {
    let begun = ProfileGuard::begin_spawn(None).ok().unwrap();
    assert!(begun.pending_spawn);
    let cancelled = ProfileGuard::cancel_spawn(Some(begun)).ok().unwrap();
    assert!(!cancelled.pending_spawn);
    assert!(matches!(
        ProfileGuard::clear_runtime(&Some(cancelled), &Vec::new()),
        ClearNext::Remove
    ));
    let begun = ProfileGuard::begin_spawn(None).ok().unwrap();
    assert!(matches!(
        ProfileGuard::clear_runtime(&Some(begun), &Vec::new()),
        ClearNext::Failed(Error::InterruptedSpawn)
    ));
}

#[test]
fn spawns_are_noted_one_at_a_time() {
    let begun = ProfileGuard::begin_spawn(None).ok().unwrap();
    assert_eq!(ProfileGuard::begin_spawn(copy(&begun)).err(), Some(Error::UnrecordedSpawn));
    for pid in [0, i32::MAX as u32 + 1, u32::MAX] {
        assert_eq!(
            ProfileGuard::register_group(copy(&begun), pid).err(),
            Some(Error::InvalidChildGroup)
        );
    }
    let record = ProfileGuard::register_group(Some(begun), i32::MAX as u32).ok().unwrap();
    assert_eq!(
        ProfileGuard::register_group(copy(&record), 1).err(),
        Some(Error::UnmarkedSpawn)
    );
    assert_eq!(ProfileGuard::register_group(None, 1).err(), Some(Error::UnmarkedSpawn));
    assert_eq!(ProfileGuard::cancel_spawn(Some(record)).err(), Some(Error::NoPendingSpawn));
    assert_eq!(ProfileGuard::cancel_spawn(None).err(), Some(Error::NoPendingSpawn));
}

#[test]
fn every_recorded_group_has_to_be_gone() {
    let record = Some(Runtime { pending_spawn: false, groups: vec![1, 2, 0] });
    let next = |gone: Vec<bool>| ProfileGuard::clear_runtime(&record, &gone);
    assert!(matches!(next(vec![]), ClearNext::Probe(1)));
    assert!(matches!(next(vec![true]), ClearNext::Probe(2)));
    assert!(matches!(next(vec![true, false]), ClearNext::Failed(Error::ChildMayBeRunning)));
    assert!(matches!(next(vec![true, true]), ClearNext::Failed(Error::InvalidRecordedGroup)));
    for delivery in [Delivery::Sent, Delivery::NotPermitted, Delivery::Failed] {
        assert!(!ProfileGuard::group_gone(&delivery));
    }
}

#[test]
fn names_of_profiles_are_plain() {
    let store = ProfileStore::new(bytes("/state"));
    for name in ["", "../escape", "UPPER", "a/b", "-start", "a.b", "\u{e9}", &"a".repeat(49)] {
        assert_eq!(store.lock(name, true).err(), Some(Error::InvalidProfileName));
        assert_eq!(validate_name(name), Err(Error::InvalidProfileName));
    }
    for name in ["a", "0", "a-b-", &"a".repeat(48)] {
        assert!(store.lock(name, false).is_ok());
        assert_eq!(ProfileStore::entry_name(Some(name.to_owned())), Ok(name.to_owned()));
    }
    assert_eq!(ProfileStore::entry_name(None), Err(Error::InvalidStoredName));
    assert_eq!(
        ProfileStore::entry_name(Some("lost+found".to_owned())),
        Err(Error::InvalidProfileName)
    );
    assert_eq!(
        Error::InvalidProfileName.message(),
        "profile name must match [a-z0-9][a-z0-9-]{0,47}"
    );
}

#[test]
fn a_profile_is_locked_from_the_outside_in() {
    let store = ProfileStore::new(bytes("/state"));
    assert_eq!(store.root(), b"/state");
    assert_eq!(store.profiles(), b"/state/profiles");
    for create in [true, false] {
        let (guard, steps) = store.lock("work", create).ok().unwrap();
        assert_eq!(guard.directory(), b"/state/profiles/work");
        assert_eq!(guard.home(), b"/state/profiles/work/home");
        assert_eq!(guard.metadata(), b"/state/profiles/work/metadata.json");
        assert_eq!(guard.runtime(), b"/state/profiles/work/runtime.json");
        let shown: Vec<String> = steps
            .iter()
            .map(|step| match step {
                LockStep::Directory { path, create } => {
                    format!("{create} {}", String::from_utf8_lossy(path))
                }
                LockStep::Lock(path) => format!("lock {}", String::from_utf8_lossy(path)),
                LockStep::ClearRuntime => "clear".to_owned(),
            })
            .collect();
        assert_eq!(
            shown,
            vec![
                format!("{create} /state"),
                format!("{create} /state/profiles"),
                format!("{create} /state/profiles/work"),
                "lock /state/profiles/work/lock".to_owned(),
                format!("{create} /state/profiles/work/home"),
                "clear".to_owned(),
            ]
        );
    }
}

#[test]
fn different_profiles_lie_in_different_places() {
    let (first, second) = (guard("first"), guard("second"));
    assert_ne!(first.directory(), second.directory());
    assert_ne!(first.home(), second.home());
    assert_ne!(first.metadata(), second.metadata());
}

#[test]
fn a_record_is_complete_before_it_counts() {
    for (steps, path) in [
        (
            guard("work").save_metadata(&Metadata::verified_at(identity("a", "u", None), 1)),
            "/state/profiles/work/metadata.json",
        ),
        (
            guard("work").save_runtime(&Runtime { pending_spawn: false, groups: vec![] }),
            "/state/profiles/work/runtime.json",
        ),
    ] {
        let directory = b"/state/profiles/work";
        assert_eq!(steps.len(), 5);
        assert!(matches!(&steps[0], SaveStep::CheckDirectory(place) if place == directory));
        assert!(matches!(&steps[1], SaveStep::CheckExisting(place) if *place == bytes(path)));
        assert!(matches!(
            &steps[2],
            SaveStep::WriteTemporary { directory: place, .. } if place == directory
        ));
        assert!(matches!(&steps[3], SaveStep::Replace(place) if *place == bytes(path)));
        assert!(matches!(&steps[4], SaveStep::SyncDirectory(place) if place == directory));
    }
}

#[test]
fn the_store_is_found_by_the_environment() {
    let root = |state: Option<&[u8]>, home: Option<&[u8]>| {
        ProfileStore::from_env(state, home, Ok(bytes("/work"))).map(|store| store.root().to_vec())
    };
    assert_eq!(root(Some(b"/x"), None), Ok(bytes("/x")));
    assert_eq!(root(Some(b"x/"), None), Ok(bytes("/work/x/")));
    assert_eq!(root(Some(b""), Some(b"/home")), Err(Error::EmptyStateHome));
    assert_eq!(root(None, Some(b"/home/")), Ok(bytes("/home/.local/state/coduck")));
    assert_eq!(root(None, Some(b"home")), Ok(bytes("/work/home/.local/state/coduck")));
    assert_eq!(root(None, None), Err(Error::HomeUnset));
    let lost = || Err(Error::Outside("lost".to_owned()));
    assert_eq!(ProfileStore::from_env(None, Some(b"/home"), lost()).err(), lost().err());
    assert_eq!(ProfileStore::from_env(None, None, lost()).err(), Some(Error::HomeUnset));
    assert_eq!(home_directory(Some(b"/home")), Ok(&b"/home"[..]));
    assert_eq!(home_directory(Some(b"")), Err(Error::HomeUnset));
}

#[test]
fn profiles_are_listed_by_name_and_keep_their_order_otherwise() {
    let entry = |name: &str, verified: u64| ProfileSummary {
        name: name.to_owned(),
        metadata: Some(Metadata::verified_at(identity("a", "u", None), verified)),
    };
    let list = ProfileStore::list(vec![
        entry("b", 1),
        entry("a-", 2),
        entry("b", 3),
        entry("a", 4),
        entry("0", 5),
        entry("aa", 6),
    ]);
    let shown: Vec<(String, u64)> = list
        .into_iter()
        .map(|entry| (entry.name, entry.metadata.unwrap().last_verified))
        .collect();
    let expected = [("0", 5), ("a", 4), ("a-", 2), ("aa", 6), ("b", 1), ("b", 3)];
    assert_eq!(shown.len(), expected.len());
    for (have, want) in shown.iter().zip(expected) {
        assert_eq!((have.0.as_str(), have.1), want);
    }
}

#[test]
fn identities_are_compared_by_account_and_user() {
    let saved = identity("account", "user", Some("a@example.invalid"));
    assert_eq!(saved.ensure_same_account(&identity("account", "user", None)), Ok(()));
    for other in [identity("account", "other", None), identity("other", "user", None)] {
        assert_eq!(saved.ensure_same_account(&other), Err(Error::IdentityChanged));
        let record = Some(Metadata::verified_at(saved.clone(), 1));
        assert_eq!(Metadata::accept(&record, &other), Err(Error::IdentityChanged));
        assert_eq!(Metadata::accept(&None, &other), Ok(()));
    }
    assert_eq!(saved.label(), "a@example.invalid");
    assert_eq!(identity("account", "user", None).label(), "account");
    assert_eq!(saved, saved.clone());
}

#[test]
fn a_verified_identity_is_dated() {
    let record = Metadata::verified(identity("account", "user", None)).ok().unwrap();
    assert_eq!(record.identity, identity("account", "user", None));
    assert!(record.last_verified > 1_600_000_000);
    let dated = |now: Option<u64>| Metadata::dated(identity("account", "user", None), now);
    let record = Metadata { identity: identity("account", "user", None), last_verified: 7 };
    assert_eq!(dated(Some(7)), Ok(record));
    assert_eq!(dated(Some(0)).map(|record| record.last_verified), Ok(0));
    assert_eq!(dated(None), Err(Error::ClockBeforeEpoch));
}

#[test]
fn one_child_can_be_released_while_others_go_on() {
    let begun = ProfileGuard::begin_spawn(None).ok().unwrap();
    let first = ProfileGuard::register_group(Some(begun), 1).ok().unwrap();
    let begun = ProfileGuard::begin_spawn(copy(&first)).ok().unwrap();
    let both = ProfileGuard::register_group(Some(begun), 2).ok().unwrap();
    assert_eq!(
        ProfileGuard::release_group(copy(&both), 2, false).err(),
        Some(Error::ChildMayBeRunning)
    );
    let left = ProfileGuard::release_group(copy(&both), 2, true).ok().unwrap();
    assert_eq!((left.pending_spawn, left.groups), (false, vec![1]));
    let left = ProfileGuard::release_group(Some(both), 1, true).ok().unwrap();
    assert_eq!(left.groups, vec![2]);
    let left = ProfileGuard::release_group(Some(left), 3, true).ok().unwrap();
    assert_eq!(left.groups, vec![2]);
}

fn value(text: &str) -> Json {
    let line = format!("{text}\n");
    FrameReader::new().read_frame(line.as_bytes()).unwrap().frame.unwrap()
}

#[test]
fn records_are_read_as_they_were_written() {
    for email in [None, Some(""), Some("\u{e9}\"@example.invalid")] {
        let record = || Metadata::verified_at(identity("account", "user", email), u64::MAX);
        assert_eq!(Metadata::of_record(&record().record()), Some(record()));
        assert_eq!(Metadata::read(&record().written()), Some(record()));
    }
    let written = Metadata::verified_at(identity("account", "user", None), 7).written();
    let expected = "{\"identity\":{\"account_id\":\"account\",\"email\":null,\
                    \"plan_type\":\"plus\",\"user_id\":\"user\"},\"last_verified\":7}";
    assert_eq!(written, bytes(expected));
    for groups in [vec![], vec![1], vec![1, u32::MAX]] {
        let record = || Runtime { pending_spawn: true, groups: groups.clone() };
        assert_eq!(Runtime::of_record(&record().record()), Some(record()));
        assert_eq!(Runtime::read(&record().written()), Some(record()));
    }
    let written = Runtime { pending_spawn: false, groups: vec![4711] }.written();
    assert_eq!(written, bytes("{\"groups\":[4711],\"pending_spawn\":false}"));
}

#[test]
fn records_need_all_that_they_say() {
    let found = |text: &str| Metadata::of_record(&value(text));
    let known = Metadata::verified_at(identity("a", "u", None), 1);
    for text in [
        "{\"identity\":{\"account_id\":\"a\",\"user_id\":\"u\",\"plan_type\":\"plus\"},\"last_verified\":1,\"x\":2}",
        "{\"identity\":[\"a\",\"u\",null,\"plus\"],\"last_verified\":1}",
        "[[\"a\",\"u\",null,\"plus\"],1]",
    ] {
        assert_eq!(found(text).as_ref(), Some(&known));
    }
    for text in [
        "null",
        "{}",
        "{\"identity\":{\"account_id\":\"a\",\"user_id\":\"u\",\"plan_type\":\"plus\"}}",
        "{\"identity\":{\"account_id\":\"a\",\"user_id\":\"u\"},\"last_verified\":1}",
        "{\"identity\":[\"a\",\"u\",7,\"plus\"],\"last_verified\":1}",
        "{\"identity\":[\"a\",\"u\",\"plus\"],\"last_verified\":1}",
        "[[\"a\",\"u\",null,\"plus\"],-1]",
        "[[\"a\",\"u\",null,\"plus\"],1.0]",
        "[[\"a\",\"u\",null,\"plus\"],1,2]",
    ] {
        assert_eq!(found(text), None);
    }
    let children = |text: &str| Runtime::of_record(&value(text));
    assert_eq!(
        children("[true,[1,4294967295]]"),
        Some(Runtime { pending_spawn: true, groups: vec![1, u32::MAX] })
    );
    for text in [
        "{\"pending_spawn\":false}",
        "{\"groups\":[]}",
        "{\"pending_spawn\":0,\"groups\":[]}",
        "{\"pending_spawn\":false,\"groups\":[-1]}",
        "{\"pending_spawn\":false,\"groups\":[4294967296]}",
        "{\"pending_spawn\":false,\"groups\":{}}",
    ] {
        assert_eq!(children(text), None);
    }
    assert_eq!(Metadata::read(b"{"), None);
    assert_eq!(Runtime::read(b""), None);
}

// what lies in places of a disk: the bytes of a private file, or none for a link.
type Places = Vec<(Vec<u8>, Option<Vec<u8>>)>;

fn opened(places: &Places, path: &[u8]) -> Opened {
    match places.iter().find(|place| place.0 == path) {
        None => Opened::Missing,
        Some((_, Some(_))) => Opened::Opened,
        Some((_, None)) => Opened::Failed(Error::Outside("too many links".to_owned())),
    }
}

fn save(places: &mut Places, steps: Vec<SaveStep>) -> Result<(), Error> {
    let mut temporary = None;
    for step in steps {
        match step {
            SaveStep::CheckExisting(path) => {
                if let Opened::Failed(error) = opened(places, &path) {
                    return Err(error);
                }
            }
            SaveStep::WriteTemporary { bytes, .. } => temporary = Some(bytes),
            SaveStep::Replace(path) => {
                places.retain(|place| place.0 != path);
                places.push((path, temporary.take()));
            }
            SaveStep::CheckDirectory(_) | SaveStep::SyncDirectory(_) => {}
        }
    }
    Ok(())
}

fn remembered(places: &Places, guard: &ProfileGuard) -> Result<Option<Metadata>, Error> {
    let path = guard.metadata();
    match read_record(opened(places, &path)) {
        ReadNext::Absent => Ok(None),
        ReadNext::Failed(error) => Err(error),
        ReadNext::Read => {
            let place = places.iter().find(|place| place.0 == path).unwrap();
            let bytes = place.1.as_ref().unwrap();
            accept_record(bytes.len(), Metadata::read(bytes)).map(Some)
        }
    }
}

fn forget(places: &mut Places, guard: &ProfileGuard) -> Result<(), Error> {
    let path = guard.metadata();
    match remove_private(opened(places, &path)) {
        RemoveNext::Remove => places.retain(|place| place.0 != path),
        RemoveNext::Absent => {}
        RemoveNext::Failed(error) => return Err(error),
    }
    Ok(())
}

#[test]
fn private_profiles_lock_and_keep_only_cached_identity() {
    let (first, second) = (guard("first"), guard("second"));
    let mut places: Places = vec![(first.home().to_vec(), Some(vec![]))];
    let metadata = Metadata::verified(Identity {
        account_id: "account".into(),
        user_id: "user".into(),
        email: None,
        plan_type: "plus".into(),
    })
    .unwrap();
    save(&mut places, first.save_metadata(&metadata)).unwrap();
    assert_eq!(remembered(&places, &first).unwrap(), Some(metadata));
    assert!(remembered(&places, &second).unwrap().is_none());
    let list = ProfileStore::list(vec![
        ProfileSummary { name: "second".to_owned(), metadata: remembered(&places, &second).unwrap() },
        ProfileSummary { name: "first".to_owned(), metadata: remembered(&places, &first).unwrap() },
    ]);
    assert_eq!(list.len(), 2);
    assert!(list[1].metadata.is_none());
    let other = Metadata::verified_at(identity("other", "user", None), 1);
    save(&mut places, second.save_metadata(&other)).unwrap();
    forget(&mut places, &first).unwrap();
    assert!(remembered(&places, &first).unwrap().is_none());
    assert_eq!(remembered(&places, &second).unwrap(), Some(other));
    assert!(places.iter().any(|place| place.0 == first.home()));
    places.push((first.metadata(), None));
    assert!(remembered(&places, &first).is_err());
    let again = Metadata::verified_at(identity("account", "user", None), 2);
    assert!(save(&mut places, first.save_metadata(&again)).is_err());
    assert!(forget(&mut places, &first).is_err());
}

#[test]
fn a_record_that_is_too_long_is_saved_but_refused() {
    let long = "x".repeat(MAX_RECORD);
    let metadata = Metadata::verified_at(identity(&long, "user", None), 1);
    let work = guard("work");
    let mut places: Places = Vec::new();
    save(&mut places, work.save_metadata(&metadata)).unwrap();
    assert_eq!(remembered(&places, &work), Err(Error::FileTooLarge));
}

#[test]
fn directories_have_to_be_private() {
    let facts = |directory: bool, symlink: bool, mode: u32| {
        check_dir(&Some(DirectoryFacts { directory, symlink, mode }))
    };
    assert_eq!(facts(true, false, 0o40700), Ok(()));
    assert_eq!(facts(true, false, 0o40755), Err(Error::WrongDirectoryMode));
    assert_eq!(facts(true, false, 0o40600), Err(Error::WrongDirectoryMode));
    assert_eq!(facts(false, false, 0o100700), Err(Error::NotRealDirectory));
    assert_eq!(facts(true, true, 0o40700), Err(Error::NotRealDirectory));
    assert_eq!(check_dir(&None), Err(Error::CannotInspectDirectory));
    assert!(matches!(private_dir(Found::Present, false), DirectoryNext::Check));
    assert!(matches!(private_dir(Found::Missing, true), DirectoryNext::Create));
    for found in [Found::Missing, Found::Unknown] {
        assert!(matches!(
            private_dir(found, false),
            DirectoryNext::Failed(Error::ProfileMissing)
        ));
    }
    assert!(matches!(
        private_dir(Found::Unknown, true),
        DirectoryNext::Failed(Error::ProfileMissing)
    ));
    assert_eq!(listed_dir(Found::Missing, &None), Ok(false));
    assert_eq!(listed_dir(Found::Unknown, &None), Err(Error::CannotInspectDirectory));
    let private = Some(DirectoryFacts { directory: true, symlink: false, mode: 0o700 });
    assert_eq!(listed_dir(Found::Present, &private), Ok(true));
}

#[test]
fn files_have_to_be_private() {
    assert_eq!(open_private(true, 0o100600), Ok(()));
    assert_eq!(open_private(true, 0o100644), Err(Error::WrongFileMode));
    assert_eq!(open_private(false, 0o600), Err(Error::WrongFileMode));
    assert!(matches!(read_record(Opened::Opened), ReadNext::Read));
    assert!(matches!(read_record(Opened::Missing), ReadNext::Absent));
    assert!(matches!(
        read_record(Opened::Failed(Error::WrongFileMode)),
        ReadNext::Failed(Error::CannotReadFile)
    ));
    assert!(matches!(remove_private(Opened::Opened), RemoveNext::Remove));
    assert!(matches!(remove_private(Opened::Missing), RemoveNext::Absent));
    assert!(matches!(
        remove_private(Opened::Failed(Error::WrongFileMode)),
        RemoveNext::Failed(Error::WrongFileMode)
    ));
}

#[test]
fn records_are_short_and_understood() {
    assert_eq!(accept_record(MAX_RECORD, Some(7)), Ok(7));
    assert_eq!(accept_record(MAX_RECORD + 1, Some(7)), Err(Error::FileTooLarge));
    assert_eq!(accept_record::<u8>(2, None), Err(Error::InvalidRecord));
}
