//! What holds of the profiles: their names, where they lie, who may read them and what is
//! recorded of them, said of what goes into a call and what comes out of it.

use crate::error::Error;
use crate::json::Json;
use crate::process::Delivery;
use crate::profile::{
    accept_record, check_dir, listed_dir, open_private, private_dir, read_record, remove_private,
    validate_name, ClearNext, DirectoryFacts, DirectoryNext, Found, Identity, LockStep, Metadata,
    Opened, ProfileGuard, ProfileStore, ProfileSummary, ReadNext, RemoveNext, Runtime, SaveStep,
};
use vstd::prelude::*;

use crate::json::{json_read, json_written, JsonView};
use crate::path::{joined_path, path_bytes};
use crate::profile::{named, without, LockStepView, SaveStepView};
use crate::record::{groups_of, identity_of, is_short};
use crate::text::{comes_before, law_text_order, text_le};

verus! {

/// Whether a text has one to forty-eight characters, of which the first is a small letter or a
/// digit and each other a small letter, a digit or a hyphen.
pub open spec fn can_name_a_profile(name: Seq<char>) -> bool {
    &&& 1 <= name.len() <= 48
    &&& 'a' <= name[0] <= 'z' || '0' <= name[0] <= '9'
    &&& forall|i: int|
        1 <= i < name.len() ==> 'a' <= #[trigger] name[i] <= 'z' || '0' <= name[i] <= '9'
            || name[i] == '-'
}

/// A text is accepted as the name of a profile where it has one to forty-eight characters, of
/// which the first is a small letter or a digit and each other a small letter, a digit or a
/// hyphen; any other text is refused.
pub proof fn law_names_of_profiles(name: &str, result: Result<(), Error>)
    requires
        call_ensures(validate_name, (name,), result),
    ensures
        result == Ok::<(), Error>(()) <==> {
            &&& 1 <= name@.len() <= 48
            &&& 'a' <= name@[0] <= 'z' || '0' <= name@[0] <= '9'
            &&& forall|i: int|
                1 <= i < name@.len() ==> 'a' <= #[trigger] name@[i] <= 'z' || '0' <= name@[i] <= '9'
                    || name@[i] == '-'
        },
        result is Err ==> result == Err::<(), Error>(Error::InvalidProfileName),
{
}

/// The name of an entry of the store is accepted, and handed back, where it is a text that can
/// name a profile.
pub proof fn law_names_of_entries(name: Option<String>, accepted: Result<String, Error>)
    requires
        call_ensures(ProfileStore::entry_name, (name,), accepted),
    ensures
        name is None ==> accepted == Err::<String, Error>(Error::InvalidStoredName),
        name matches Some(text) ==> (can_name_a_profile(text@) ==> accepted == Ok::<String, Error>(
            text,
        )),
        name matches Some(text) ==> (!can_name_a_profile(text@) ==> accepted == Err::<
            String,
            Error,
        >(Error::InvalidProfileName)),
{
}

/// A path inside a directory: behind its own, with one separator between them.
pub open spec fn inside(directory: Seq<u8>, name: Seq<char>) -> Seq<u8> {
    if directory.len() == 0 || directory.last() == 47u8 {
        directory + vstd::utf8::encode_utf8(name)
    } else {
        directory.push(47u8) + vstd::utf8::encode_utf8(name)
    }
}

/// A part that does not begin at the root is continued inside a directory.
pub proof fn lemma_inside(directory: Seq<u8>, name: Seq<char>)
    requires
        name.len() > 0,
        vstd::utf8::is_ascii_chars(name),
        name[0] != '/',
    ensures
        joined_path(directory, path_bytes(name)) == inside(directory, name),
        inside(directory, name).len() > 0,
{
    vstd::utf8::is_ascii_chars_encode_utf8(name);
    assert(path_bytes(name)[0] == name[0] as u8);
}

/// Locking a profile succeeds for every text that can name one and is refused for any other.
/// The state of the profile lies in the directory of its name, in the directory `profiles` of
/// the store. What is checked comes before what lies in it, the lock is taken before the home
/// of the helper is touched, and the children of an earlier run are looked for last.
pub proof fn law_locked_profiles(
    store: &ProfileStore,
    name: &str,
    create: bool,
    plan: Result<(ProfileGuard, Vec<LockStep>), Error>,
)
    requires
        call_ensures(ProfileStore::lock, (store, name, create), plan),
    ensures
        plan is Ok <==> can_name_a_profile(name@),
        plan matches Err(error) ==> error == Error::InvalidProfileName,
        plan matches Ok((guard, steps)) ==> {
            let profiles = inside(store@, "profiles"@);
            let directory = inside(profiles, name@);
            let home = inside(directory, "home"@);
            &&& guard@.directory == directory
            &&& guard@.home == home
            &&& steps@.len() == 6
            &&& steps@[0]@ == (LockStepView::Directory { path: store@, create })
            &&& steps@[1]@ == (LockStepView::Directory { path: profiles, create })
            &&& steps@[2]@ == (LockStepView::Directory { path: directory, create })
            &&& steps@[3]@ == LockStepView::Lock(inside(directory, "lock"@))
            &&& steps@[4]@ == (LockStepView::Directory { path: home, create })
            &&& steps@[5]@ == LockStepView::ClearRuntime
        },
{
    if can_name_a_profile(name@) {
        reveal_strlit("profiles");
        reveal_strlit("home");
        reveal_strlit("lock");
        lemma_inside(store@, "profiles"@);
        lemma_inside(inside(store@, "profiles"@), name@);
        lemma_inside(inside(inside(store@, "profiles"@), name@), "home"@);
        lemma_inside(inside(inside(store@, "profiles"@), name@), "lock"@);
        if plan is Ok {
            let steps = plan->Ok_0.1@;
            let shown = steps.map_values(|step: LockStep| step@);
            assert(shown.len() == 6);
            assert(forall|i: int| 0 <= i < 6 ==> shown[i] == (#[trigger] steps[i])@);
        }
    }
}

/// The records of a profile lie beside each other in its directory.
pub proof fn law_places_of_records(guard: &ProfileGuard, metadata: Vec<u8>, runtime: Vec<u8>)
    requires
        call_ensures(ProfileGuard::metadata, (guard,), metadata),
        call_ensures(ProfileGuard::runtime, (guard,), runtime),
    ensures
        metadata@ == inside(guard@.directory, "metadata.json"@),
        runtime@ == inside(guard@.directory, "runtime.json"@),
{
    reveal_strlit("metadata.json");
    reveal_strlit("runtime.json");
    lemma_inside(guard@.directory, "metadata.json"@);
    lemma_inside(guard@.directory, "runtime.json"@);
}

/// Whether steps save bytes in a file of a directory: what is there has to be private, the
/// bytes are whole on the disk before they take the place of the old ones, and the directory
/// follows them.
pub open spec fn saves(
    steps: Seq<SaveStep>,
    directory: Seq<u8>,
    path: Seq<u8>,
    bytes: Seq<u8>,
) -> bool {
    &&& steps.len() == 5
    &&& steps[0]@ == SaveStepView::CheckDirectory(directory)
    &&& steps[1]@ == SaveStepView::CheckExisting(path)
    &&& steps[2]@ == (SaveStepView::WriteTemporary { directory, bytes })
    &&& steps[3]@ == SaveStepView::Replace(path)
    &&& steps[4]@ == SaveStepView::SyncDirectory(directory)
}

/// Remembering something of a profile writes an object with two members, of which one holds
/// the four members of the identity, to the place of its record.
pub proof fn law_saved_metadata(guard: &ProfileGuard, metadata: &Metadata, steps: Vec<SaveStep>)
    requires
        call_ensures(ProfileGuard::save_metadata, (guard, metadata), steps),
    ensures
        json_written(
            JsonView::Object(
                map![
                    "identity"@ => JsonView::Object(map![
                        "account_id"@ => JsonView::Text(metadata.identity.account_id@),
                        "user_id"@ => JsonView::Text(metadata.identity.user_id@),
                        "email"@ => match metadata.identity.email {
                            Some(email) => JsonView::Text(email@),
                            None => JsonView::Null,
                        },
                        "plan_type"@ => JsonView::Text(metadata.identity.plan_type@),
                    ]),
                    "last_verified"@ => JsonView::Unsigned(metadata.last_verified),
                ],
            ),
        ) matches Some(bytes) && saves(
            steps@,
            guard@.directory,
            inside(guard@.directory, "metadata.json"@),
            bytes,
        ),
{
    reveal_strlit("metadata.json");
    lemma_inside(guard@.directory, "metadata.json"@);
    let identity = JsonView::Object(
        map![
            "account_id"@ => JsonView::Text(metadata.identity.account_id@),
            "user_id"@ => JsonView::Text(metadata.identity.user_id@),
            "email"@ => match metadata.identity.email {
                Some(email) => JsonView::Text(email@),
                None => JsonView::Null,
            },
            "plan_type"@ => JsonView::Text(metadata.identity.plan_type@),
        ],
    );
    let record = JsonView::Object(
        map![
            "identity"@ => identity,
            "last_verified"@ => JsonView::Unsigned(metadata.last_verified),
        ],
    );
    assert(metadata@.identity.record()->Object_0 =~= identity->Object_0);
    assert(metadata@.record()->Object_0 =~= record->Object_0);
    let shown = steps@.map_values(|step: SaveStep| step@);
    assert(shown.len() == 5);
    assert(forall|i: int| 0 <= i < 5 ==> shown[i] == (#[trigger] steps@[i])@);
}

/// Saving the record of children writes an object with two members to the place of that
/// record: whether a start is pending, and the numbers of the groups in their order.
pub proof fn law_saved_runtime(guard: &ProfileGuard, runtime: &Runtime, steps: Vec<SaveStep>)
    requires
        call_ensures(ProfileGuard::save_runtime, (guard, runtime), steps),
    ensures
        json_written(
            JsonView::Object(
                map![
                    "pending_spawn"@ => JsonView::Bool(runtime.pending_spawn),
                    "groups"@ => JsonView::Array(Seq::new(
                        runtime.groups@.len(),
                        |i: int| JsonView::Unsigned(runtime.groups@[i] as u64),
                    )),
                ],
            ),
        ) matches Some(bytes) && saves(
            steps@,
            guard@.directory,
            inside(guard@.directory, "runtime.json"@),
            bytes,
        ),
{
    reveal_strlit("runtime.json");
    lemma_inside(guard@.directory, "runtime.json"@);
    let groups = Seq::new(
        runtime.groups@.len(),
        |i: int| JsonView::Unsigned(runtime.groups@[i] as u64),
    );
    let record = JsonView::Object(
        map![
            "pending_spawn"@ => JsonView::Bool(runtime.pending_spawn),
            "groups"@ => JsonView::Array(groups),
        ],
    );
    assert(runtime@.groups.map_values(|group: u32| JsonView::Unsigned(group as u64)) =~= groups);
    assert(runtime@.record()->Object_0 =~= record->Object_0);
    let shown = steps@.map_values(|step: SaveStep| step@);
    assert(shown.len() == 5);
    assert(forall|i: int| 0 <= i < 5 ==> shown[i] == (#[trigger] steps@[i])@);
}

/// The profiles are kept where `CODUCK_HOME` says, taken from the working directory; where it
/// is not set, in `.local/state/coduck` of the home directory. A variable that is set to
/// nothing is an error.
pub proof fn law_where_profiles_are_kept(
    state: Option<&[u8]>,
    home: Option<&[u8]>,
    working: Result<Vec<u8>, Error>,
    store: Result<ProfileStore, Error>,
)
    requires
        call_ensures(ProfileStore::from_env, (state, home, working), store),
    ensures
        state matches Some(path) ==> (path@.len() == 0 ==> store == Err::<ProfileStore, Error>(
            Error::EmptyStateHome,
        )),
        state is None && (home is None || home->0@.len() == 0) ==> store == Err::<
            ProfileStore,
            Error,
        >(Error::HomeUnset),
        state is Some && state->0@.len() > 0 && working is Err ==> store == Err::<
            ProfileStore,
            Error,
        >(working->Err_0),
        state is None && home is Some && home->0@.len() > 0 && working is Err ==> store == Err::<
            ProfileStore,
            Error,
        >(working->Err_0),
        state is Some && state->0@.len() > 0 && working is Ok ==> store is Ok && store->Ok_0@ == (
        if state->0@[0] == 47u8 {
            state->0@
        } else if working->Ok_0@.len() == 0 || working->Ok_0@.last() == 47u8 {
            working->Ok_0@ + state->0@
        } else {
            working->Ok_0@.push(47u8) + state->0@
        }),
        state is None && home is Some && home->0@.len() > 0 && home->0@[0] == 47u8 && working is Ok
            ==> store is Ok && store->Ok_0@ == inside(home->0@, ".local/state/coduck"@),
        state is None && home is Some && home->0@.len() > 0 && home->0@[0] != 47u8 && working is Ok
            ==> store is Ok && store->Ok_0@ == joined_path(
            working->Ok_0@,
            inside(home->0@, ".local/state/coduck"@),
        ),
{
    if home is Some && home->0@.len() > 0 {
        reveal_strlit(".local/state/coduck");
        lemma_inside(home->0@, ".local/state/coduck"@);
        assert(inside(home->0@, ".local/state/coduck"@)[0] == home->0@[0]);
    }
}

/// A directory is private where it is a real one, no link, and its permissions are all for the
/// owner and none for anyone else.
pub proof fn law_private_directories(facts: &Option<DirectoryFacts>, result: Result<(), Error>)
    requires
        call_ensures(check_dir, (facts,), result),
    ensures
        result == Ok::<(), Error>(()) <==> (facts matches Some(known) && known.directory
            && !known.symlink && known.mode & 0o777 == 0o700),
        facts is None ==> result == Err::<(), Error>(Error::CannotInspectDirectory),
        facts matches Some(known) ==> (!known.directory || known.symlink ==> result == Err::<
            (),
            Error,
        >(Error::NotRealDirectory)),
        facts matches Some(known) ==> (known.directory && !known.symlink && known.mode & 0o777
            != 0o700 ==> result == Err::<(), Error>(Error::WrongDirectoryMode)),
{
}

/// A directory that is missing is made where it may be, and holds nothing where it is listed.
pub proof fn law_missing_directories(
    found: Found,
    create: bool,
    facts: &Option<DirectoryFacts>,
    next: DirectoryNext,
    listed: Result<bool, Error>,
    checked: Result<(), Error>,
)
    requires
        call_ensures(private_dir, (found, create), next),
        call_ensures(listed_dir, (found, facts), listed),
        call_ensures(check_dir, (facts,), checked),
    ensures
        next is Check <==> found == Found::Present,
        next is Create <==> found == Found::Missing && create,
        next is Failed ==> next == DirectoryNext::Failed(Error::ProfileMissing),
        listed == Ok::<bool, Error>(false) <==> found == Found::Missing,
        found != Found::Missing && checked is Ok ==> listed == Ok::<bool, Error>(true),
        found != Found::Missing && checked is Err ==> listed == Err::<bool, Error>(checked->Err_0),
{
}

/// A file is private where it is a regular one whose permissions are to read and write, for
/// the owner alone.
pub proof fn law_private_files(file: bool, mode: u32, result: Result<(), Error>)
    requires
        call_ensures(open_private, (file, mode), result),
    ensures
        result == Ok::<(), Error>(()) <==> file && mode & 0o777 == 0o600,
        result is Err ==> result == Err::<(), Error>(Error::WrongFileMode),
{
}

/// A file that is missing has nothing to read or to remove; what stopped an opening stops a
/// removal, and is only said to be unreadable where the file was to be read.
pub proof fn law_opened_files(opened: Opened, read: ReadNext, removal: RemoveNext)
    requires
        call_ensures(read_record, (opened,), read),
        call_ensures(remove_private, (opened,), removal),
    ensures
        read is Read <==> opened is Opened,
        read is Absent <==> opened is Missing,
        read is Failed ==> read == ReadNext::Failed(Error::CannotReadFile),
        removal is Remove <==> opened is Opened,
        removal is Absent <==> opened is Missing,
        opened matches Opened::Failed(error) ==> removal == RemoveNext::Failed(error),
{
}

/// A record has at most 65536 bytes, and has to be understood.
pub proof fn law_accepted_records<T>(
    length: usize,
    parsed: Option<T>,
    record: Result<T, Error>,
)
    requires
        call_ensures(accept_record::<T>, (length, parsed), record),
    ensures
        record is Ok <==> length <= 65536 && parsed is Some,
        record is Ok ==> parsed == Some(record->Ok_0),
        length > 65536 ==> record == Err::<T, Error>(Error::FileTooLarge),
        length <= 65536 && parsed is None ==> record == Err::<T, Error>(Error::InvalidRecord),
{
}

/// What an identity has to be the same in: the account and the user, whatever the address and
/// the plan; and it is shown by its address, or else by its account.
pub proof fn law_identities(
    first: &Identity,
    second: &Identity,
    result: Result<(), Error>,
    label: &str,
)
    requires
        call_ensures(Identity::ensure_same_account, (first, second), result),
        call_ensures(Identity::label, (first,), label),
    ensures
        result == Ok::<(), Error>(()) <==> first.account_id@ == second.account_id@
            && first.user_id@ == second.user_id@,
        result is Err ==> result == Err::<(), Error>(Error::IdentityChanged),
        first.email matches Some(email) ==> label@ == email@,
        first.email is None ==> label@ == first.account_id@,
{
}

/// An identity may replace what is remembered where nothing is, or the account and the user
/// are those that are remembered.
pub proof fn law_accepted_identities(
    saved: &Option<Metadata>,
    identity: &Identity,
    result: Result<(), Error>,
)
    requires
        call_ensures(Metadata::accept, (saved, identity), result),
    ensures
        result == Ok::<(), Error>(()) <==> (saved matches Some(metadata)
            ==> metadata.identity.account_id@ == identity.account_id@
            && metadata.identity.user_id@ == identity.user_id@),
        result is Err ==> result == Err::<(), Error>(Error::IdentityChanged),
{
}

/// What is remembered of an identity is the identity and the seconds of the clock; without a
/// clock nothing is.
pub proof fn law_dated_identities(
    identity: Identity,
    now: Option<u64>,
    metadata: Result<Metadata, Error>,
)
    requires
        call_ensures(Metadata::dated, (identity, now), metadata),
    ensures
        now matches Some(seconds) ==> metadata is Ok && metadata->Ok_0.identity == identity
            && metadata->Ok_0.last_verified == seconds,
        now is None ==> metadata == Err::<Metadata, Error>(Error::ClockBeforeEpoch),
{
}

/// Those of some profiles that have the given name, in their order.
pub open spec fn those_named(list: Seq<ProfileSummary>, name: Seq<char>) -> Seq<ProfileSummary> {
    list.filter(|summary: ProfileSummary| summary.name@ == name)
}

/// Profiles are listed by their names, in the order of the characters, and none is lost, added
/// or doubled: for every name, those of that name are listed as they came.
pub proof fn law_listed_profiles(entries: Vec<ProfileSummary>, list: Vec<ProfileSummary>)
    requires
        call_ensures(ProfileStore::list, (entries,), list),
    ensures
        forall|i: int, j: int|
            0 <= i < j < list@.len() ==> {
                let a = (#[trigger] list@[i]).name@;
                let b = (#[trigger] list@[j]).name@;
                a == b || exists|k: int| #[trigger] comes_before(a, b, k)
            },
        forall|name: Seq<char>| #[trigger] those_named(list@, name) == those_named(entries@, name),
{
    assert forall|i: int, j: int| 0 <= i < j < list@.len() implies {
        let a = (#[trigger] list@[i]).name@;
        let b = (#[trigger] list@[j]).name@;
        a == b || exists|k: int| #[trigger] comes_before(a, b, k)
    } by {
        let a = list@[i].name@;
        let b = list@[j].name@;
        assert(text_le(a, b));
        law_text_order(a, b);
    }
    assert forall|name: Seq<char>| #[trigger]
        those_named(list@, name) == those_named(entries@, name) by {
        let pred = |summary: ProfileSummary| summary.name@ == name;
        assert(pred =~= named(name));
        assert(list@.filter(named(name)) == entries@.filter(named(name)));
    }
}

/// The groups in a record that may be absent: an absent one has none.
pub open spec fn recorded_groups(record: Option<Runtime>) -> Seq<u32> {
    match record {
        Some(state) => state.groups@,
        None => Seq::empty(),
    }
}

/// A start can be noted where none is pending, and then one is; the groups stay.
pub proof fn law_noted_starts(record: Option<Runtime>, next: Result<Runtime, Error>)
    requires
        call_ensures(ProfileGuard::begin_spawn, (record,), next),
    ensures
        next is Ok <==> (record matches Some(state) ==> !state.pending_spawn),
        next matches Ok(state) ==> state.pending_spawn && state.groups@ == recorded_groups(record),
        next matches Err(error) ==> error == Error::UnrecordedSpawn,
{
}

/// A start can be withdrawn where one is pending, and then none is; the groups stay.
pub proof fn law_withdrawn_starts(record: Option<Runtime>, next: Result<Runtime, Error>)
    requires
        call_ensures(ProfileGuard::cancel_spawn, (record,), next),
    ensures
        next is Ok <==> (record matches Some(state) && state.pending_spawn),
        next matches Ok(state) ==> !state.pending_spawn && state.groups@ == recorded_groups(record),
        next matches Err(error) ==> error == Error::NoPendingSpawn,
{
}

/// A group can be recorded where a start is pending and its number is one that the system can
/// address a group by; it then stands behind the others, and no start is pending.
pub proof fn law_recorded_starts(record: Option<Runtime>, pid: u32, next: Result<Runtime, Error>)
    requires
        call_ensures(ProfileGuard::register_group, (record, pid), next),
    ensures
        next is Ok <==> 1 <= pid <= 2147483647 && (record matches Some(state)
            && state.pending_spawn),
        next matches Ok(state) ==> !state.pending_spawn && state.groups@ == recorded_groups(
            record,
        ).push(pid),
        pid == 0 || pid > 2147483647 ==> next == Err::<Runtime, Error>(Error::InvalidChildGroup),
        next is Err && 1 <= pid <= 2147483647 ==> next == Err::<Runtime, Error>(
            Error::UnmarkedSpawn,
        ),
{
}

/// A group is released where it is gone: the others stay, in their order, and so does a start
/// that is pending.
pub proof fn law_released_groups(
    record: Option<Runtime>,
    pid: u32,
    gone: bool,
    next: Result<Runtime, Error>,
)
    requires
        call_ensures(ProfileGuard::release_group, (record, pid, gone), next),
    ensures
        next is Ok <==> gone,
        next matches Ok(state) ==> {
            &&& state.groups@ == recorded_groups(record).filter(|group: u32| group != pid)
            &&& state.pending_spawn <==> (record matches Some(before) && before.pending_spawn)
        },
        next matches Err(error) ==> error == Error::ChildMayBeRunning,
{
    lemma_without_is_filter(recorded_groups(record), pid);
}

proof fn lemma_without_is_filter(groups: Seq<u32>, pid: u32)
    ensures
        without(groups, pid) == groups.filter(|group: u32| group != pid),
    decreases groups.len(),
{
    reveal(Seq::filter);
    if groups.len() > 0 {
        lemma_without_is_filter(groups.drop_last(), pid);
    } else {
        assert(groups.filter(|group: u32| group != pid) =~= Seq::<u32>::empty());
    }
}

/// A record is cleared where no start is pending: its groups are asked after one by one, from
/// the first, and when the last is gone the record is removed. A group that is not gone, or
/// whose number is none, ends it.
pub proof fn law_cleared_records(record: &Option<Runtime>, gone: &Vec<bool>, next: ClearNext)
    requires
        call_ensures(ProfileGuard::clear_runtime, (record, gone), next),
    ensures
        next is Done <==> record is None,
        record matches Some(state) ==> {
            let asked = gone@.len() as int;
            &&& state.pending_spawn ==> next == ClearNext::Failed(Error::InterruptedSpawn)
            &&& !state.pending_spawn && gone@.contains(false) ==> next == ClearNext::Failed(
                Error::ChildMayBeRunning,
            )
            &&& !state.pending_spawn && !gone@.contains(false) && asked < state.groups@.len()
                && 1 <= state.groups@[asked] <= 2147483647 ==> next == ClearNext::Probe(
                state.groups@[asked],
            )
            &&& !state.pending_spawn && !gone@.contains(false) && asked < state.groups@.len() && !(1
                <= state.groups@[asked] <= 2147483647) ==> next == ClearNext::Failed(
                Error::InvalidRecordedGroup,
            )
            &&& !state.pending_spawn && !gone@.contains(false) && asked >= state.groups@.len()
                ==> next is Remove
        },
{
}

/// A group is gone only where the system says that there is none.
pub proof fn law_groups_are_gone(delivery: &Delivery, gone: bool)
    requires
        call_ensures(ProfileGuard::group_gone, (delivery,), gone),
    ensures
        gone <==> *delivery is NoSuchGroup,
{
}

/// Whether a member is a text.
pub open spec fn is_text_member(members: Map<Seq<char>, JsonView>, key: Seq<char>) -> bool {
    members.contains_key(key) && members[key] is Text
}

/// An identity is read from an object whose members for the account, the user and the plan are
/// texts, and whose address is a text, null or missing; what they hold is what it has.
pub proof fn law_identities_are_read(record: &Json, identity: Option<Identity>)
    requires
        call_ensures(Identity::of_record, (record,), identity),
        record@ is Object,
    ensures
        ({
            let members = record@->Object_0;
            &&& identity is Some <==> {
                &&& is_text_member(members, "account_id"@)
                &&& is_text_member(members, "user_id"@)
                &&& is_text_member(members, "plan_type"@)
                &&& members.contains_key("email"@) ==> members["email"@] is Null
                    || members["email"@] is Text
            }
            &&& identity matches Some(found) ==> {
                &&& members["account_id"@] == JsonView::Text(found.account_id@)
                &&& members["user_id"@] == JsonView::Text(found.user_id@)
                &&& members["plan_type"@] == JsonView::Text(found.plan_type@)
                &&& found.email is Some <==> is_text_member(members, "email"@)
                &&& found.email is Some ==> members["email"@] == JsonView::Text(found.email->0@)
            }
        }),
{
}

/// An identity is read too from a list of the four in their order, and from nothing else.
pub proof fn law_identities_are_read_from_lists(record: &Json, identity: Option<Identity>)
    requires
        call_ensures(Identity::of_record, (record,), identity),
        !(record@ is Object),
    ensures
        identity is Some <==> (record@ matches JsonView::Array(items) && items.len() == 4
            && items[0] is Text && items[1] is Text && items[3] is Text && (items[2] is Null
            || items[2] is Text)),
        identity matches Some(found) ==> {
            let items = record@->Array_0;
            &&& items[0] == JsonView::Text(found.account_id@)
            &&& items[1] == JsonView::Text(found.user_id@)
            &&& items[3] == JsonView::Text(found.plan_type@)
            &&& found.email is Some <==> items[2] is Text
            &&& found.email is Some ==> items[2] == JsonView::Text(found.email->0@)
        },
{
}

/// What is remembered is read from an object, or a list of two, that holds an identity and a
/// time.
pub proof fn law_metadata_is_read(record: &Json, metadata: Option<Metadata>)
    requires
        call_ensures(Metadata::of_record, (record,), metadata),
    ensures
        record@ matches JsonView::Object(members) ==> {
            &&& metadata is Some <==> members.contains_key("identity"@) && members.contains_key(
                "last_verified"@,
            ) && identity_of(members["identity"@]) is Some && members["last_verified"@] is Unsigned
            &&& metadata matches Some(found) ==> {
                &&& identity_of(members["identity"@]) == Some(found.identity@)
                &&& members["last_verified"@] == JsonView::Unsigned(found.last_verified)
            }
        },
        record@ matches JsonView::Array(items) ==> {
            &&& metadata is Some <==> items.len() == 2 && identity_of(items[0]) is Some && items[1]
                is Unsigned
            &&& metadata matches Some(found) ==> {
                &&& identity_of(items[0]) == Some(found.identity@)
                &&& items[1] == JsonView::Unsigned(found.last_verified)
            }
        },
        !(record@ is Object) && !(record@ is Array) ==> metadata is None,
{
}

/// Whether a value is a list of the given groups.
pub open spec fn lists_groups(value: JsonView, groups: Seq<u32>) -> bool {
    value matches JsonView::Array(items) && items.len() == groups.len() && forall|i: int|
        0 <= i < items.len() ==> #[trigger] items[i] == JsonView::Unsigned(groups[i] as u64)
}

/// The record of children is read from an object, or a list of two, that holds a truth value
/// and a list of numbers of at most 32 bits.
pub proof fn law_runtime_is_read(record: &Json, runtime: Option<Runtime>)
    requires
        call_ensures(Runtime::of_record, (record,), runtime),
    ensures
        record@ matches JsonView::Object(members) ==> {
            &&& runtime is Some <==> members.contains_key("pending_spawn"@)
                && members["pending_spawn"@] is Bool && members.contains_key("groups"@) && exists|
                groups: Seq<u32>,
            | #[trigger] lists_groups(members["groups"@], groups)
            &&& runtime matches Some(found) ==> members["pending_spawn"@] == JsonView::Bool(
                found.pending_spawn,
            ) && lists_groups(members["groups"@], found.groups@)
        },
        record@ matches JsonView::Array(items) ==> {
            &&& runtime is Some <==> items.len() == 2 && items[0] is Bool && exists|
                groups: Seq<u32>,
            | #[trigger] lists_groups(items[1], groups)
            &&& runtime matches Some(found) ==> items[0] == JsonView::Bool(found.pending_spawn)
                && lists_groups(items[1], found.groups@)
        },
        !(record@ is Object) && !(record@ is Array) ==> runtime is None,
{
    match record@ {
        JsonView::Object(members) => lemma_groups(members["groups"@]),
        JsonView::Array(items) => lemma_groups(items[1]),
        _ => {},
    }
}

proof fn lemma_groups(value: JsonView)
    ensures
        groups_of(value) is Some <==> exists|groups: Seq<u32>| #[trigger]
            lists_groups(value, groups),
        groups_of(value) matches Some(groups) ==> lists_groups(value, groups),
{
    if groups_of(value) is Some {
        let groups = groups_of(value)->0;
        let items = value->Array_0;
        assert forall|i: int| 0 <= i < items.len() implies #[trigger] items[i]
            == JsonView::Unsigned(groups[i] as u64) by {
            assert(is_short(items[i]));
        }
        assert(lists_groups(value, groups));
    }
    if exists|groups: Seq<u32>| #[trigger] lists_groups(value, groups) {
        let groups = choose|groups: Seq<u32>| #[trigger] lists_groups(value, groups);
        let items = value->Array_0;
        assert forall|i: int| 0 <= i < items.len() implies is_short(#[trigger] items[i]) by {
            assert(items[i] == JsonView::Unsigned(groups[i] as u64));
        }
    }
}

/// What bytes hold is what the value that they are read as holds, and bytes that are no value
/// hold nothing.
pub proof fn law_records_are_read_from_bytes(
    bytes: &[u8],
    record: &Json,
    metadata: Option<Metadata>,
    remembered: Option<Metadata>,
    runtime: Option<Runtime>,
    recorded: Option<Runtime>,
)
    requires
        call_ensures(Metadata::read, (bytes,), metadata),
        call_ensures(Metadata::of_record, (record,), remembered),
        call_ensures(Runtime::read, (bytes,), runtime),
        call_ensures(Runtime::of_record, (record,), recorded),
    ensures
        json_read(bytes@) is None ==> metadata is None && runtime is None,
        json_read(bytes@) == Some(record@) ==> {
            &&& metadata is Some <==> remembered is Some
            &&& metadata is Some ==> metadata->0@ == remembered->0@
            &&& runtime is Some <==> recorded is Some
            &&& runtime is Some ==> runtime->0@ == recorded->0@
        },
{
}

/// A store tells the directory that it was made with and the one of all profiles in it, and a
/// locked profile tells its own and the home of its helper.
pub proof fn law_what_stores_and_profiles_tell(
    store: &ProfileStore,
    guard: &ProfileGuard,
    root: &[u8],
    profiles: Vec<u8>,
    directory: &[u8],
    home: &[u8],
    place: Vec<u8>,
    made: ProfileStore,
)
    requires
        call_ensures(ProfileStore::root, (store,), root),
        call_ensures(ProfileStore::profiles, (store,), profiles),
        call_ensures(ProfileGuard::directory, (guard,), directory),
        call_ensures(ProfileGuard::home, (guard,), home),
        call_ensures(ProfileStore::new, (place,), made),
    ensures
        root@ == store@,
        profiles@ == inside(store@, "profiles"@),
        directory@ == guard@.directory,
        home@ == guard@.home,
        made@ == place@,
{
    reveal_strlit("profiles");
    lemma_inside(store@, "profiles"@);
}

} // verus!
