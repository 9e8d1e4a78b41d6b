//! Profiles: named accounts whose state lies in private directories.

use crate::error::Error;
use crate::path::{bytes_of, copy_bytes, join_path};
use crate::process::{valid_group, Delivery};
use crate::text::{characters, in_order};
use vstd::prelude::*;

use crate::json::{json_read, json_written};
use crate::path::{joined_path, lemma_path_bytes_injective, path_bytes, SLASH};
use crate::process::is_group;
use crate::text::{lemma_text_le_total, lemma_text_le_transitive, text_le};

verus! {

/// Whose account a profile uses.
#[derive(Debug, PartialEq, Eq)]
pub struct Identity {
    pub account_id: String,
    pub user_id: String,
    pub email: Option<String>,
    pub plan_type: String,
}

/// What an identity says.
pub struct IdentityView {
    pub account_id: Seq<char>,
    pub user_id: Seq<char>,
    pub email: Option<Seq<char>>,
    pub plan_type: Seq<char>,
}

/// What an optional text holds.
pub open spec fn text_view(text: Option<String>) -> Option<Seq<char>> {
    match text {
        Some(held) => Some(held@),
        None => None,
    }
}

impl View for Identity {
    type V = IdentityView;

    open spec fn view(&self) -> IdentityView {
        IdentityView {
            account_id: self.account_id@,
            user_id: self.user_id@,
            email: text_view(self.email),
            plan_type: self.plan_type@,
        }
    }
}

impl IdentityView {
    /// Whether two identities are the same user of the same account. Their e-mail address
    /// and plan may differ.
    pub open spec fn same_account(self, other: IdentityView) -> bool {
        self.account_id == other.account_id && self.user_id == other.user_id
    }

    /// How an identity is shown: by its e-mail address, or else by its account.
    pub open spec fn label(self) -> Seq<char> {
        match self.email {
            Some(email) => email,
            None => self.account_id,
        }
    }
}

impl Clone for Identity {
    fn clone(&self) -> (copy: Identity)
        ensures
            copy@ == self@,
    {
        Identity {
            account_id: self.account_id.clone(),
            user_id: self.user_id.clone(),
            email: match &self.email {
                Some(email) => Some(email.clone()),
                None => None,
            },
            plan_type: self.plan_type.clone(),
        }
    }
}

impl Identity {
    /// Refuses an identity that is not the same user of the same account.
    pub fn ensure_same_account(&self, other: &Identity) -> (result: Result<(), Error>)
        ensures
            result == (if self@.same_account(other@) {
                Ok(())
            } else {
                Err(Error::IdentityChanged)
            }),
    {
        if self.account_id != other.account_id || self.user_id != other.user_id {
            return Err(Error::IdentityChanged);
        }
        Ok(())
    }

    /// How the identity is shown.
    pub fn label(&self) -> (label: &str)
        ensures
            label@ == self@.label(),
    {
        match &self.email {
            Some(email) => email.as_str(),
            None => self.account_id.as_str(),
        }
    }
}

/// What is remembered of a profile between runs.
#[derive(Debug, PartialEq, Eq)]
pub struct Metadata {
    pub identity: Identity,
    /// When the identity was last verified, in seconds since the beginning of 1970.
    pub last_verified: u64,
}

/// What is remembered, as a value.
pub struct MetadataView {
    pub identity: IdentityView,
    pub last_verified: u64,
}

impl View for Metadata {
    type V = MetadataView;

    open spec fn view(&self) -> MetadataView {
        MetadataView { identity: self.identity@, last_verified: self.last_verified }
    }
}

/// The seconds since the beginning of 1970, as `std::time::SystemTime::elapsed` counts them;
/// none where the clock is set before that moment. Nothing is claimed of the result, which
/// depends on the clock.
#[verifier::external_body]
pub(crate) fn unix_seconds() -> (seconds: Option<u64>) {
    match std::time::UNIX_EPOCH.elapsed() {
        Ok(elapsed) => Some(elapsed.as_secs()),
        Err(_) => None,
    }
}

/// Whether the system's clock gave a time when it was read.
pub closed spec fn is_clock_reading(seconds: Option<u64>) -> bool {
    call_ensures(unix_seconds, (), seconds)
}

/// Reads the system's clock.
pub(crate) fn read_clock() -> (seconds: Option<u64>)
    ensures
        is_clock_reading(seconds),
{
    let clock = unix_seconds;
    clock()
}

/// A time is a reading of the clock only where the system's clock can give it.
pub(crate) proof fn law_readings_come_from_the_clock(seconds: Option<u64>)
    ensures
        is_clock_reading(seconds) <==> call_ensures(unix_seconds, (), seconds),
{
}

impl Metadata {
    /// The record of an identity that was verified just now: `dated` by the system's clock.
    pub fn verified(identity: Identity) -> (metadata: Result<Metadata, Error>)
        ensures
            match metadata {
                Ok(record) => record.identity == identity,
                Err(error) => error == Error::ClockBeforeEpoch,
            },
            exists|now: Option<u64>| #[trigger]
                is_clock_reading(now) && metadata == (match now {
                    Some(seconds) => Ok(Metadata { identity, last_verified: seconds }),
                    None => Err(Error::ClockBeforeEpoch),
                }),
    {
        Metadata::dated(identity, read_clock())
    }

    /// The record of an identity that was verified at a time in seconds since the beginning
    /// of 1970; an error where the clock is set before that moment and gives none.
    pub fn dated(identity: Identity, now: Option<u64>) -> (metadata: Result<Metadata, Error>)
        ensures
            metadata == (match now {
                Some(seconds) => Ok(Metadata { identity, last_verified: seconds }),
                None => Err(Error::ClockBeforeEpoch),
            }),
    {
        match now {
            Some(seconds) => Ok(Metadata::verified_at(identity, seconds)),
            None => Err(Error::ClockBeforeEpoch),
        }
    }

    /// The record of an identity that was verified at the given time.
    pub fn verified_at(identity: Identity, now: u64) -> (metadata: Metadata)
        ensures
            metadata == (Metadata { identity, last_verified: now }),
    {
        Metadata { identity, last_verified: now }
    }

    /// Decides whether a verified identity may replace what is remembered: it must be the
    /// same account, if one is remembered.
    pub fn accept(saved: &Option<Metadata>, identity: &Identity) -> (result: Result<(), Error>)
        ensures
            result == (match saved {
                Some(metadata) => if metadata.identity@.same_account(identity@) {
                    Ok(())
                } else {
                    Err(Error::IdentityChanged)
                },
                None => Ok(()),
            }),
    {
        match saved {
            Some(metadata) => metadata.identity.ensure_same_account(identity),
            None => Ok(()),
        }
    }
}

/// A profile as it is listed.
pub struct ProfileSummary {
    pub name: String,
    pub metadata: Option<Metadata>,
}

/// A character that a profile's name may hold.
pub open spec fn is_name_char(c: char) -> bool {
    is_name_start(c) || c == '-'
}

/// A character that a profile's name may begin with.
pub open spec fn is_name_start(c: char) -> bool {
    'a' <= c <= 'z' || '0' <= c <= '9'
}

/// Whether a text is a profile's name: one to forty-eight small letters, digits and
/// hyphens, of which the first is no hyphen.
pub open spec fn is_name(name: Seq<char>) -> bool {
    &&& 1 <= name.len() <= 48
    &&& is_name_start(name[0])
    &&& forall|i: int| 0 <= i < name.len() ==> is_name_char(#[trigger] name[i])
}

/// Refuses a text that is no profile's name.
pub fn validate_name(name: &str) -> (result: Result<(), Error>)
    ensures
        result == (if is_name(name@) {
            Ok(())
        } else {
            Err(Error::InvalidProfileName)
        }),
{
    let list = characters(name);
    if list.len() == 0 || list.len() > 48 {
        return Err(Error::InvalidProfileName);
    }
    let first = list[0];
    if !('a' <= first && first <= 'z') && !('0' <= first && first <= '9') {
        return Err(Error::InvalidProfileName);
    }
    let mut i: usize = 0;
    while i < list.len()
        invariant
            i <= list.len(),
            list@ == name@,
            forall|j: int| 0 <= j < i ==> is_name_char(#[trigger] list@[j]),
        decreases list.len() - i,
    {
        let c = list[i];
        if !('a' <= c && c <= 'z') && !('0' <= c && c <= '9') && c != '-' {
            assert(!is_name_char(name@[i as int]));
            return Err(Error::InvalidProfileName);
        }
        i += 1;
    }
    Ok(())
}

/// Where all profiles are kept.
pub struct ProfileStore {
    root: Vec<u8>,
}

impl View for ProfileStore {
    type V = Seq<u8>;

    closed spec fn view(&self) -> Seq<u8> {
        self.root@
    }
}

/// The home directory, where it is set.
pub open spec fn home_of(home: Option<Seq<u8>>) -> Result<Seq<u8>, Error> {
    match home {
        Some(path) => if path.len() > 0 {
            Ok(path)
        } else {
            Err(Error::HomeUnset)
        },
        None => Err(Error::HomeUnset),
    }
}

/// Decides which directory is the home directory.
pub fn home_directory(home: Option<&[u8]>) -> (path: Result<&[u8], Error>)
    ensures
        match home_of(bytes_view(home)) {
            Ok(bytes) => path is Ok && path->Ok_0@ == bytes,
            Err(error) => path == Err::<&[u8], Error>(error),
        },
{
    match home {
        Some(path) => if path.len() > 0 {
            Ok(path)
        } else {
            Err(Error::HomeUnset)
        },
        None => Err(Error::HomeUnset),
    }
}

/// What optional bytes hold.
pub open spec fn bytes_view(bytes: Option<&[u8]>) -> Option<Seq<u8>> {
    match bytes {
        Some(held) => Some(held@),
        None => None,
    }
}

/// Where profiles are kept, before the working directory is considered.
pub open spec fn state_root(state: Option<Seq<u8>>, home: Option<Seq<u8>>) -> Result<
    Seq<u8>,
    Error,
> {
    match state {
        Some(path) => if path.len() > 0 {
            Ok(path)
        } else {
            Err(Error::EmptyStateHome)
        },
        None => match home_of(home) {
            Ok(path) => Ok(joined_path(path, path_bytes(".local/state/coduck"@))),
            Err(error) => Err(error),
        },
    }
}

/// The directory of all profiles.
pub open spec fn profiles_path(root: Seq<u8>) -> Seq<u8> {
    joined_path(root, path_bytes("profiles"@))
}

/// The directory of one profile.
pub open spec fn profile_path(root: Seq<u8>, name: Seq<char>) -> Seq<u8> {
    joined_path(profiles_path(root), path_bytes(name))
}

/// One thing to do in order to lock a profile.
pub enum LockStep {
    /// Check that a directory is private; create it where it is missing and may be created.
    Directory { path: Vec<u8>, create: bool },
    /// Open the lock file and take the lock.
    Lock(Vec<u8>),
    /// Check that no child of an earlier run is left.
    ClearRuntime,
}

/// What a step says.
pub enum LockStepView {
    Directory { path: Seq<u8>, create: bool },
    Lock(Seq<u8>),
    ClearRuntime,
}

impl View for LockStep {
    type V = LockStepView;

    open spec fn view(&self) -> LockStepView {
        match self {
            LockStep::Directory { path, create } => LockStepView::Directory {
                path: path@,
                create: *create,
            },
            LockStep::Lock(path) => LockStepView::Lock(path@),
            LockStep::ClearRuntime => LockStepView::ClearRuntime,
        }
    }
}

/// What locking a profile takes, in order.
pub open spec fn lock_steps(root: Seq<u8>, name: Seq<char>, create: bool) -> Seq<LockStepView> {
    let directory = profile_path(root, name);
    seq![
        LockStepView::Directory { path: root, create },
        LockStepView::Directory { path: profiles_path(root), create },
        LockStepView::Directory { path: directory, create },
        LockStepView::Lock(joined_path(directory, path_bytes("lock"@))),
        LockStepView::Directory { path: joined_path(directory, path_bytes("home"@)), create },
        LockStepView::ClearRuntime,
    ]
}

/// A locked profile: where its state lies.
pub struct ProfileGuard {
    directory: Vec<u8>,
    home: Vec<u8>,
}

/// Where the state of a profile lies.
pub struct GuardView {
    pub directory: Seq<u8>,
    pub home: Seq<u8>,
}

impl View for ProfileGuard {
    type V = GuardView;

    closed spec fn view(&self) -> GuardView {
        GuardView { directory: self.directory@, home: self.home@ }
    }
}

impl ProfileStore {
    /// The store in a directory.
    pub fn new(root: Vec<u8>) -> (store: ProfileStore)
        ensures
            store@ == root@,
    {
        ProfileStore { root }
    }

    /// The store that the environment names: the directory in `CODUCK_HOME`, or else the
    /// usual place in the home directory; a relative path is taken from the working
    /// directory.
    pub fn from_env(
        state: Option<&[u8]>,
        home: Option<&[u8]>,
        working: Result<Vec<u8>, Error>,
    ) -> (store: Result<ProfileStore, Error>)
        ensures
            match state_root(bytes_view(state), bytes_view(home)) {
                Err(error) => store == Err::<ProfileStore, Error>(error),
                Ok(root) => match working {
                    Err(error) => store == Err::<ProfileStore, Error>(error),
                    Ok(directory) => store is Ok && store->Ok_0@ == joined_path(directory@, root),
                },
            },
    {
        let root = match state {
            Some(path) => if path.len() > 0 {
                copy_bytes(path)
            } else {
                return Err(Error::EmptyStateHome);
            },
            None => match home_directory(home) {
                Ok(path) => join_path(path, bytes_of(".local/state/coduck").as_slice()),
                Err(error) => return Err(error),
            },
        };
        match working {
            Ok(directory) => Ok(
                ProfileStore::new(join_path(directory.as_slice(), root.as_slice())),
            ),
            Err(error) => Err(error),
        }
    }

    /// The directory of the store.
    pub fn root(&self) -> (root: &[u8])
        ensures
            root@ == self@,
    {
        self.root.as_slice()
    }

    /// The directory of all profiles.
    pub fn profiles(&self) -> (path: Vec<u8>)
        ensures
            path@ == profiles_path(self@),
    {
        join_path(self.root.as_slice(), bytes_of("profiles").as_slice())
    }

    /// What locking the profile of a name takes, in order, and where its state lies; an
    /// error where the name is none. `create` says whether a missing profile is made.
    pub fn lock(&self, name: &str, create: bool) -> (plan: Result<
        (ProfileGuard, Vec<LockStep>),
        Error,
    >)
        ensures
            if is_name(name@) {
                &&& plan is Ok
                &&& plan->Ok_0.0@.directory == profile_path(self@, name@)
                &&& plan->Ok_0.0@.home == joined_path(
                    profile_path(self@, name@),
                    path_bytes("home"@),
                )
                &&& plan->Ok_0.1@.map_values(|step: LockStep| step@) == lock_steps(
                    self@,
                    name@,
                    create,
                )
            } else {
                plan == Err::<(ProfileGuard, Vec<LockStep>), Error>(Error::InvalidProfileName)
            },
    {
        match validate_name(name) {
            Ok(()) => {},
            Err(error) => return Err(error),
        }
        let profiles = self.profiles();
        let directory = join_path(profiles.as_slice(), bytes_of(name).as_slice());
        let lock = join_path(directory.as_slice(), bytes_of("lock").as_slice());
        let home = join_path(directory.as_slice(), bytes_of("home").as_slice());
        let mut steps: Vec<LockStep> = Vec::new();
        let root = copy_bytes(self.root.as_slice());
        steps.push(LockStep::Directory { path: root, create });
        steps.push(LockStep::Directory { path: profiles, create });
        steps.push(LockStep::Directory { path: copy_bytes(directory.as_slice()), create });
        steps.push(LockStep::Lock(lock));
        steps.push(LockStep::Directory { path: copy_bytes(home.as_slice()), create });
        steps.push(LockStep::ClearRuntime);
        assert(steps@.map_values(|step: LockStep| step@) =~= lock_steps(self@, name@, create));
        Ok((ProfileGuard { directory, home }, steps))
    }

    /// Accepts the name of an entry of the store, where it is the text of a profile's name.
    pub fn entry_name(name: Option<String>) -> (accepted: Result<String, Error>)
        ensures
            accepted == (match name {
                None => Err(Error::InvalidStoredName),
                Some(text) => if is_name(text@) {
                    Ok(text)
                } else {
                    Err(Error::InvalidProfileName)
                },
            }),
    {
        match name {
            None => Err(Error::InvalidStoredName),
            Some(text) => match validate_name(text.as_str()) {
                Ok(()) => Ok(text),
                Err(error) => Err(error),
            },
        }
    }

    /// Lists profiles in the order of their names; those of one name stay as they were.
    pub fn list(entries: Vec<ProfileSummary>) -> (list: Vec<ProfileSummary>)
        ensures
            in_name_order(list@),
            forall|name: Seq<char>| #[trigger]
                list@.filter(named(name)) == entries@.filter(named(name)),
    {
        let ghost all = entries@;
        let mut rest = entries;
        let mut list: Vec<ProfileSummary> = Vec::new();
        let ghost mut done: int = 0;
        proof {
            assert(all.take(0) =~= Seq::empty());
            assert(all.skip(0) =~= all);
        }
        while rest.len() > 0
            invariant
                0 <= done <= all.len(),
                rest@ == all.skip(done),
                in_name_order(list@),
                forall|name: Seq<char>| #[trigger]
                    list@.filter(named(name)) == all.take(done).filter(named(name)),
            decreases rest.len(),
        {
            let entry = rest.remove(0);
            proof {
                assert(rest@ =~= all.skip(done + 1));
                assert(entry == all[done]);
            }
            let ghost before = list@;
            insert_in_order(&mut list, entry);
            proof {
                assert forall|name: Seq<char>| #[trigger]
                    list@.filter(named(name)) == all.take(done + 1).filter(named(name)) by {
                    assert(before.filter(named(name)) == all.take(done).filter(named(name)));
                    assert(all.take(done + 1) =~= all.take(done).push(entry));
                    lemma_filter_push(all.take(done), entry, named(name));
                    lemma_filter_push(before, entry, named(name));
                }
                done = done + 1;
            }
        }
        assert(all.take(done) =~= all);
        list
    }
}

/// Whether a profile has the given name.
pub open spec fn named(name: Seq<char>) -> spec_fn(ProfileSummary) -> bool {
    |summary: ProfileSummary| summary.name@ == name
}

/// Whether profiles stand in the order of their names.
pub open spec fn in_name_order(list: Seq<ProfileSummary>) -> bool {
    forall|i: int, j: int|
        0 <= i < j < list.len() ==> text_le((#[trigger] list[i]).name@, (#[trigger] list[j]).name@)
}

proof fn lemma_filter_push<T>(list: Seq<T>, item: T, pred: spec_fn(T) -> bool)
    ensures
        list.push(item).filter(pred) == (if pred(item) {
            list.filter(pred).push(item)
        } else {
            list.filter(pred)
        }),
{
    reveal(Seq::filter);
    assert(list.push(item).drop_last() =~= list);
}

proof fn lemma_filter_none<T>(list: Seq<T>, pred: spec_fn(T) -> bool)
    requires
        forall|i: int| 0 <= i < list.len() ==> !pred(#[trigger] list[i]),
    ensures
        list.filter(pred) == Seq::<T>::empty(),
    decreases list.len(),
{
    reveal(Seq::filter);
    if list.len() > 0 {
        assert(!pred(list[list.len() - 1]));
        assert forall|i: int| 0 <= i < list.drop_last().len() implies !pred(
            #[trigger] list.drop_last()[i],
        ) by {
            assert(list.drop_last()[i] == list[i]);
        }
        lemma_filter_none(list.drop_last(), pred);
    }
}

/// Puts a profile behind those whose names come before its own or are the same.
fn insert_in_order(list: &mut Vec<ProfileSummary>, entry: ProfileSummary)
    requires
        in_name_order(old(list)@),
    ensures
        in_name_order(final(list)@),
        forall|name: Seq<char>| #[trigger]
            final(list)@.filter(named(name)) == old(list)@.push(entry).filter(named(name)),
{
    let mut place: usize = list.len();
    while place > 0 && !in_order(list[place - 1].name.as_str(), entry.name.as_str())
        invariant
            place <= list.len(),
            forall|j: int| place <= j < list.len() ==> !text_le(
                (#[trigger] list@[j]).name@,
                entry.name@,
            ),
        decreases place,
    {
        place -= 1;
    }
    let ghost before = list@;
    let ghost p = place as int;
    list.insert(place, entry);
    proof {
        let after = list@;
        let low = before.take(p);
        let high = before.skip(p);
        assert(after =~= low.push(entry) + high);
        assert(before =~= low + high);
        assert forall|name: Seq<char>| #[trigger]
            after.filter(named(name)) == before.push(entry).filter(named(name)) by {
            let pred = named(name);
            Seq::filter_distributes_over_add(low.push(entry), high, pred);
            Seq::filter_distributes_over_add(low, high, pred);
            lemma_filter_push(low, entry, pred);
            lemma_filter_push(before, entry, pred);
            if pred(entry) {
                assert forall|i: int| 0 <= i < high.len() implies !pred(#[trigger] high[i]) by {
                    assert(high[i] == before[p + i]);
                    lemma_text_le_total(entry.name@, entry.name@);
                }
                lemma_filter_none(high, pred);
                assert(after.filter(pred) =~= before.push(entry).filter(pred));
            } else {
                assert(after.filter(pred) =~= before.push(entry).filter(pred));
            }
        }
        assert forall|i: int, j: int| 0 <= i < j < after.len() implies text_le(
            (#[trigger] after[i]).name@,
            (#[trigger] after[j]).name@,
        ) by {
            if j < p {
                assert(after[i] == before[i] && after[j] == before[j]);
            } else if j == p {
                assert(after[i] == before[i]);
                if i < p - 1 {
                    lemma_text_le_transitive(before[i].name@, before[p - 1].name@, entry.name@);
                }
            } else if i == p {
                assert(after[j] == before[j - 1]);
                lemma_text_le_total(before[j - 1].name@, entry.name@);
            } else if i < p {
                assert(after[i] == before[i] && after[j] == before[j - 1]);
            } else {
                assert(after[i] == before[i - 1] && after[j] == before[j - 1]);
            }
        }
    }
}

/// What a look at a path found.
#[derive(Clone, Copy, Debug, PartialEq, Eq, Structural)]
pub enum Found {
    Present,
    Missing,
    /// The look failed.
    Unknown,
}

/// What is to be done about a directory that has to be private.
pub enum DirectoryNext {
    Check,
    /// Create it with permissions for its owner alone, then check it.
    Create,
    Failed(Error),
}

/// Decides what to do about a directory that has to be private.
pub fn private_dir(found: Found, create: bool) -> (next: DirectoryNext)
    ensures
        next == (match found {
            Found::Present => DirectoryNext::Check,
            Found::Missing => if create {
                DirectoryNext::Create
            } else {
                DirectoryNext::Failed(Error::ProfileMissing)
            },
            Found::Unknown => DirectoryNext::Failed(Error::ProfileMissing),
        }),
{
    match found {
        Found::Present => DirectoryNext::Check,
        Found::Missing => if create {
            DirectoryNext::Create
        } else {
            DirectoryNext::Failed(Error::ProfileMissing)
        },
        Found::Unknown => DirectoryNext::Failed(Error::ProfileMissing),
    }
}

/// Decides whether a directory of the store is looked into: one that is missing holds nothing,
/// and any other has to be private.
pub fn listed_dir(found: Found, facts: &Option<DirectoryFacts>) -> (listed: Result<bool, Error>)
    ensures
        listed == (if found == Found::Missing {
            Ok(false)
        } else {
            match directory_fault(*facts) {
                Some(error) => Err(error),
                None => Ok(true),
            }
        }),
{
    match found {
        Found::Missing => Ok(false),
        _ => match check_dir(facts) {
            Ok(()) => Ok(true),
            Err(error) => Err(error),
        },
    }
}

/// What the system says of a directory.
pub struct DirectoryFacts {
    pub directory: bool,
    pub symlink: bool,
    pub mode: u32,
}

/// Why a directory is not private; none where it is.
pub open spec fn directory_fault(facts: Option<DirectoryFacts>) -> Option<Error> {
    match facts {
        None => Some(Error::CannotInspectDirectory),
        Some(known) => if !known.directory || known.symlink {
            Some(Error::NotRealDirectory)
        } else if known.mode & 0o777 != 0o700 {
            Some(Error::WrongDirectoryMode)
        } else {
            None
        },
    }
}

/// Refuses a directory that is not a real directory for its owner alone.
pub fn check_dir(facts: &Option<DirectoryFacts>) -> (result: Result<(), Error>)
    ensures
        result == (match directory_fault(*facts) {
            Some(error) => Err(error),
            None => Ok(()),
        }),
{
    match facts {
        None => Err(Error::CannotInspectDirectory),
        Some(known) => if !known.directory || known.symlink {
            Err(Error::NotRealDirectory)
        } else if known.mode & 0o777 != 0o700 {
            Err(Error::WrongDirectoryMode)
        } else {
            Ok(())
        },
    }
}

/// Why an opened file is not private; none where it is.
pub open spec fn file_fault(file: bool, mode: u32) -> Option<Error> {
    if file && mode & 0o777 == 0o600 {
        None
    } else {
        Some(Error::WrongFileMode)
    }
}

/// Refuses an opened file that is not a regular file for its owner alone.
pub fn open_private(file: bool, mode: u32) -> (result: Result<(), Error>)
    ensures
        result == (match file_fault(file, mode) {
            Some(error) => Err(error),
            None => Ok(()),
        }),
{
    if !file || mode & 0o777 != 0o600 {
        return Err(Error::WrongFileMode);
    }
    Ok(())
}

/// How the opening of a private file went.
pub enum Opened {
    Opened,
    /// There is no such file.
    Missing,
    Failed(Error),
}

/// What is to be done about a record that is to be read.
pub enum ReadNext {
    Read,
    /// There is no record.
    Absent,
    Failed(Error),
}

/// What is to be done about a record when its file was opened, or was not.
pub open spec fn read_next(opened: Opened) -> ReadNext {
    match opened {
        Opened::Opened => ReadNext::Read,
        Opened::Missing => ReadNext::Absent,
        Opened::Failed(_) => ReadNext::Failed(Error::CannotReadFile),
    }
}

/// Decides what to do about a record that is to be read.
pub fn read_record(opened: Opened) -> (next: ReadNext)
    ensures
        next == read_next(opened),
{
    match opened {
        Opened::Opened => ReadNext::Read,
        Opened::Missing => ReadNext::Absent,
        Opened::Failed(_) => ReadNext::Failed(Error::CannotReadFile),
    }
}

/// The most bytes that a record may have.
pub const MAX_RECORD: usize = 65536;

/// A record of so many bytes, where it is not too long and could be understood.
pub open spec fn record_accepted<T>(length: nat, parsed: Option<T>) -> Result<T, Error> {
    if length > MAX_RECORD {
        Err(Error::FileTooLarge)
    } else {
        match parsed {
            Some(value) => Ok(value),
            None => Err(Error::InvalidRecord),
        }
    }
}

/// Refuses the bytes of a record that are too many, and a record that could not be
/// understood.
pub fn accept_record<T>(length: usize, parsed: Option<T>) -> (record: Result<T, Error>)
    ensures
        record == record_accepted(length as nat, parsed),
{
    if length > MAX_RECORD {
        return Err(Error::FileTooLarge);
    }
    match parsed {
        Some(value) => Ok(value),
        None => Err(Error::InvalidRecord),
    }
}

/// One thing to do in order to save a record.
pub enum SaveStep {
    /// Check that a directory is private.
    CheckDirectory(Vec<u8>),
    /// Check that a file is private, where there is one.
    CheckExisting(Vec<u8>),
    /// Write the record's bytes to a new private file in a directory, down to the disk.
    WriteTemporary { directory: Vec<u8>, bytes: Vec<u8> },
    /// Put the new file in the place of the old one.
    Replace(Vec<u8>),
    /// Bring a directory to the disk.
    SyncDirectory(Vec<u8>),
}

/// What a step says.
pub enum SaveStepView {
    CheckDirectory(Seq<u8>),
    CheckExisting(Seq<u8>),
    WriteTemporary { directory: Seq<u8>, bytes: Seq<u8> },
    Replace(Seq<u8>),
    SyncDirectory(Seq<u8>),
}

impl View for SaveStep {
    type V = SaveStepView;

    open spec fn view(&self) -> SaveStepView {
        match self {
            SaveStep::CheckDirectory(path) => SaveStepView::CheckDirectory(path@),
            SaveStep::CheckExisting(path) => SaveStepView::CheckExisting(path@),
            SaveStep::WriteTemporary { directory, bytes } => SaveStepView::WriteTemporary {
                directory: directory@,
                bytes: bytes@,
            },
            SaveStep::Replace(path) => SaveStepView::Replace(path@),
            SaveStep::SyncDirectory(path) => SaveStepView::SyncDirectory(path@),
        }
    }
}

/// What saving a record takes, in order: the record is complete on the disk before it takes
/// the place of the one before it.
pub open spec fn save_steps(directory: Seq<u8>, path: Seq<u8>, bytes: Seq<u8>) -> Seq<
    SaveStepView,
> {
    seq![
        SaveStepView::CheckDirectory(directory),
        SaveStepView::CheckExisting(path),
        SaveStepView::WriteTemporary { directory, bytes },
        SaveStepView::Replace(path),
        SaveStepView::SyncDirectory(directory),
    ]
}

/// What is to be done about a file that is to be removed.
pub enum RemoveNext {
    Remove,
    /// There is nothing to remove.
    Absent,
    Failed(Error),
}

/// What is to be done about a file that is to be removed, when it was opened or was not.
pub open spec fn removal_next(opened: Opened) -> RemoveNext {
    match opened {
        Opened::Opened => RemoveNext::Remove,
        Opened::Missing => RemoveNext::Absent,
        Opened::Failed(error) => RemoveNext::Failed(error),
    }
}

/// Decides what to do about a private file that is to be removed.
pub fn remove_private(opened: Opened) -> (next: RemoveNext)
    ensures
        next == removal_next(opened),
{
    match opened {
        Opened::Opened => RemoveNext::Remove,
        Opened::Missing => RemoveNext::Absent,
        Opened::Failed(error) => RemoveNext::Failed(error),
    }
}

/// The record of the children that a profile has running.
#[derive(Debug, PartialEq, Eq)]
pub struct Runtime {
    /// A child was about to be started, and it is not known whether it was.
    pub pending_spawn: bool,
    /// The process groups of the children that were started.
    pub groups: Vec<u32>,
}

/// What a record of children says.
#[verifier::ext_equal]
pub struct RuntimeView {
    pub pending_spawn: bool,
    pub groups: Seq<u32>,
}

impl View for Runtime {
    type V = RuntimeView;

    open spec fn view(&self) -> RuntimeView {
        RuntimeView { pending_spawn: self.pending_spawn, groups: self.groups@ }
    }
}

/// What a record says that may be absent: an absent one has no children.
pub open spec fn runtime_view(record: Option<Runtime>) -> RuntimeView {
    match record {
        Some(state) => state@,
        None => RuntimeView { pending_spawn: false, groups: Seq::empty() },
    }
}

/// The record while a child is about to be started.
pub open spec fn spawn_begun(record: RuntimeView) -> Result<RuntimeView, Error> {
    if record.pending_spawn {
        Err(Error::UnrecordedSpawn)
    } else {
        Ok(RuntimeView { pending_spawn: true, ..record })
    }
}

/// The record after it turned out that no child was started.
pub open spec fn spawn_cancelled(record: RuntimeView) -> Result<RuntimeView, Error> {
    if record.pending_spawn {
        Ok(RuntimeView { pending_spawn: false, ..record })
    } else {
        Err(Error::NoPendingSpawn)
    }
}

/// The record after a child was started.
pub open spec fn spawn_registered(record: RuntimeView, pid: u32) -> Result<RuntimeView, Error> {
    if !is_group(pid) {
        Err(Error::InvalidChildGroup)
    } else if !record.pending_spawn {
        Err(Error::UnmarkedSpawn)
    } else {
        Ok(RuntimeView { pending_spawn: false, groups: record.groups.push(pid) })
    }
}

/// Process groups without one of them.
pub open spec fn without(groups: Seq<u32>, pid: u32) -> Seq<u32>
    decreases groups.len(),
{
    if groups.len() == 0 {
        Seq::empty()
    } else {
        let others = without(groups.drop_last(), pid);
        if groups.last() == pid {
            others
        } else {
            others.push(groups.last())
        }
    }
}

/// The record after one child was stopped while others go on, when its group was found to be
/// gone or not.
pub open spec fn group_released(record: RuntimeView, pid: u32, gone: bool) -> Result<
    RuntimeView,
    Error,
> {
    if gone {
        Ok(RuntimeView { groups: without(record.groups, pid), ..record })
    } else {
        Err(Error::ChildMayBeRunning)
    }
}

/// What a record or its refusal says.
pub open spec fn record_view(record: Result<Runtime, Error>) -> Result<RuntimeView, Error> {
    match record {
        Ok(state) => Ok(state@),
        Err(error) => Err(error),
    }
}

/// What is to be done to clear the record of children.
pub enum ClearNext {
    /// There is no record.
    Done,
    /// Find out whether anyone is left in a process group.
    Probe(u32),
    /// Nobody is left: remove the record.
    Remove,
    Failed(Error),
}

/// What clearing a record takes next, when the groups at its beginning were found to be
/// gone (`true`) or not (`false`).
pub open spec fn clear_next(record: Option<RuntimeView>, gone: Seq<bool>) -> ClearNext {
    match record {
        None => ClearNext::Done,
        Some(state) => if state.pending_spawn {
            ClearNext::Failed(Error::InterruptedSpawn)
        } else if gone.contains(false) {
            ClearNext::Failed(Error::ChildMayBeRunning)
        } else if gone.len() >= state.groups.len() {
            ClearNext::Remove
        } else if !is_group(state.groups[gone.len() as int]) {
            ClearNext::Failed(Error::InvalidRecordedGroup)
        } else {
            ClearNext::Probe(state.groups[gone.len() as int])
        },
    }
}

/// What a record that may be absent says.
pub open spec fn optional_runtime_view(record: Option<Runtime>) -> Option<RuntimeView> {
    match record {
        Some(state) => Some(state@),
        None => None,
    }
}

fn runtime_or_default(record: Option<Runtime>) -> (state: Runtime)
    ensures
        state@ == runtime_view(record),
{
    match record {
        Some(state) => state,
        None => {
            let state = Runtime { pending_spawn: false, groups: Vec::new() };
            assert(state@.groups =~= Seq::empty());
            state
        },
    }
}

impl ProfileGuard {
    /// The home directory of the profile's helper.
    pub fn home(&self) -> (home: &[u8])
        ensures
            home@ == self@.home,
    {
        self.home.as_slice()
    }

    /// The directory of the profile.
    pub fn directory(&self) -> (directory: &[u8])
        ensures
            directory@ == self@.directory,
    {
        self.directory.as_slice()
    }

    /// Where the remembered identity lies.
    pub fn metadata(&self) -> (path: Vec<u8>)
        ensures
            path@ == joined_path(self@.directory, path_bytes("metadata.json"@)),
    {
        join_path(self.directory.as_slice(), bytes_of("metadata.json").as_slice())
    }

    /// Where the record of children lies.
    pub fn runtime(&self) -> (path: Vec<u8>)
        ensures
            path@ == joined_path(self@.directory, path_bytes("runtime.json"@)),
    {
        join_path(self.directory.as_slice(), bytes_of("runtime.json").as_slice())
    }

    /// What remembering something of the profile takes, in order.
    pub fn save_metadata(&self, metadata: &Metadata) -> (steps: Vec<SaveStep>)
        ensures
            json_written(metadata@.record()) matches Some(bytes) && json_read(bytes) == Some(
                metadata@.record(),
            ) && steps@.map_values(|step: SaveStep| step@) == save_steps(
                self@.directory,
                joined_path(self@.directory, path_bytes("metadata.json"@)),
                bytes,
            ),
    {
        self.save(self.metadata(), metadata.written())
    }

    /// What saving the record of children takes, in order.
    pub fn save_runtime(&self, runtime: &Runtime) -> (steps: Vec<SaveStep>)
        ensures
            json_written(runtime@.record()) matches Some(bytes) && json_read(bytes) == Some(
                runtime@.record(),
            ) && steps@.map_values(|step: SaveStep| step@) == save_steps(
                self@.directory,
                joined_path(self@.directory, path_bytes("runtime.json"@)),
                bytes,
            ),
    {
        self.save(self.runtime(), runtime.written())
    }

    fn save(&self, path: Vec<u8>, bytes: Vec<u8>) -> (steps: Vec<SaveStep>)
        ensures
            steps@.map_values(|step: SaveStep| step@) == save_steps(
                self@.directory,
                path@,
                bytes@,
            ),
    {
        let ghost written = bytes@;
        let mut steps: Vec<SaveStep> = Vec::new();
        let directory = copy_bytes(self.directory.as_slice());
        steps.push(SaveStep::CheckDirectory(copy_bytes(self.directory.as_slice())));
        steps.push(SaveStep::CheckExisting(copy_bytes(path.as_slice())));
        steps.push(SaveStep::WriteTemporary { directory, bytes });
        steps.push(SaveStep::Replace(path));
        steps.push(SaveStep::SyncDirectory(copy_bytes(self.directory.as_slice())));
        assert(steps@.map_values(|step: SaveStep| step@) =~= save_steps(
            self@.directory,
            path@,
            written,
        ));
        steps
    }

    /// Notes that a child is about to be started: the record to save.
    pub fn begin_spawn(record: Option<Runtime>) -> (next: Result<Runtime, Error>)
        ensures
            record_view(next) == spawn_begun(runtime_view(record)),
    {
        let state = runtime_or_default(record);
        if state.pending_spawn {
            return Err(Error::UnrecordedSpawn);
        }
        Ok(Runtime { pending_spawn: true, groups: state.groups })
    }

    /// Notes that no child was started after all: the record to save.
    pub fn cancel_spawn(record: Option<Runtime>) -> (next: Result<Runtime, Error>)
        ensures
            record_view(next) == spawn_cancelled(runtime_view(record)),
    {
        let state = runtime_or_default(record);
        if !state.pending_spawn {
            return Err(Error::NoPendingSpawn);
        }
        Ok(Runtime { pending_spawn: false, groups: state.groups })
    }

    /// Notes the process group of a child that was started: the record to save.
    pub fn register_group(record: Option<Runtime>, pid: u32) -> (next: Result<Runtime, Error>)
        ensures
            record_view(next) == spawn_registered(runtime_view(record), pid),
    {
        if !valid_group(pid) {
            return Err(Error::InvalidChildGroup);
        }
        let state = runtime_or_default(record);
        if !state.pending_spawn {
            return Err(Error::UnmarkedSpawn);
        }
        let mut groups = state.groups;
        groups.push(pid);
        Ok(Runtime { pending_spawn: false, groups })
    }

    /// Takes the process group of one child out, when it was found to be gone or not, while
    /// other children go on: the record to save.
    pub fn release_group(record: Option<Runtime>, pid: u32, gone: bool) -> (next: Result<
        Runtime,
        Error,
    >)
        ensures
            record_view(next) == group_released(runtime_view(record), pid, gone),
    {
        let state = runtime_or_default(record);
        if !gone {
            return Err(Error::ChildMayBeRunning);
        }
        let mut groups: Vec<u32> = Vec::new();
        let mut i: usize = 0;
        while i < state.groups.len()
            invariant
                i <= state.groups.len(),
                groups@ == without(state.groups@.take(i as int), pid),
            decreases state.groups.len() - i,
        {
            assert(state.groups@.take(i + 1).drop_last() =~= state.groups@.take(i as int));
            if state.groups[i] != pid {
                groups.push(state.groups[i]);
            }
            i += 1;
        }
        assert(state.groups@.take(i as int) =~= state.groups@);
        Ok(Runtime { pending_spawn: state.pending_spawn, groups })
    }

    /// Decides what clearing a record takes next, when the groups at its beginning were
    /// found to be gone or not.
    pub fn clear_runtime(record: &Option<Runtime>, gone: &Vec<bool>) -> (next: ClearNext)
        ensures
            next == clear_next(optional_runtime_view(*record), gone@),
    {
        match record {
            None => ClearNext::Done,
            Some(state) => {
                if state.pending_spawn {
                    return ClearNext::Failed(Error::InterruptedSpawn);
                }
                let mut i: usize = 0;
                while i < gone.len()
                    invariant
                        i <= gone.len(),
                        forall|j: int| 0 <= j < i ==> gone@[j],
                        *record == Some(*state),
                        !state.pending_spawn,
                    decreases gone.len() - i,
                {
                    if !gone[i] {
                        assert(gone@[i as int] == false);
                        return ClearNext::Failed(Error::ChildMayBeRunning);
                    }
                    i += 1;
                }
                assert(!gone@.contains(false));
                if gone.len() >= state.groups.len() {
                    return ClearNext::Remove;
                }
                let pid = state.groups[gone.len()];
                if !valid_group(pid) {
                    return ClearNext::Failed(Error::InvalidRecordedGroup);
                }
                ClearNext::Probe(pid)
            },
        }
    }

    /// Decides from the answer to an empty signal whether a process group is gone: only
    /// where the system says that there is none.
    pub fn group_gone(delivery: &Delivery) -> (gone: bool)
        ensures
            gone == (delivery is NoSuchGroup),
    {
        matches!(delivery, Delivery::NoSuchGroup)
    }
}

/// A start that is cancelled leaves the record as it was.
pub proof fn law_cancelled_spawn_leaves_no_trace(record: RuntimeView)
    requires
        !record.pending_spawn,
    ensures
        spawn_begun(record) is Ok,
        spawn_cancelled(spawn_begun(record)->Ok_0) == Ok::<RuntimeView, Error>(record),
{
}

/// A start that succeeds adds its process group to the record, and nothing else.
pub proof fn law_registered_spawn_is_recorded(record: RuntimeView, pid: u32)
    requires
        !record.pending_spawn,
        is_group(pid),
    ensures
        spawn_registered(spawn_begun(record)->Ok_0, pid) == Ok::<RuntimeView, Error>(
            RuntimeView { pending_spawn: false, groups: record.groups.push(pid) },
        ),
{
}

/// Releasing a child takes its process group out of the record and no other; the record is
/// then as it was before the child was started.
pub proof fn law_released_group_leaves_the_others(record: RuntimeView, pid: u32)
    ensures
        ({
            let groups = group_released(record, pid, true)->Ok_0.groups;
            &&& !groups.contains(pid)
            &&& forall|other: u32|
                other != pid ==> (groups.contains(other) <==> record.groups.contains(other))
        }),
        !record.pending_spawn && is_group(pid) && !record.groups.contains(pid) ==> group_released(
            spawn_registered(spawn_begun(record)->Ok_0, pid)->Ok_0,
            pid,
            true,
        ) == Ok::<RuntimeView, Error>(record),
        group_released(record, pid, false) is Err,
{
    lemma_without(record.groups, pid);
    assert(record.groups.push(pid).drop_last() =~= record.groups);
}

proof fn lemma_without(groups: Seq<u32>, pid: u32)
    ensures
        !without(groups, pid).contains(pid),
        forall|other: u32|
            other != pid ==> (without(groups, pid).contains(other) <==> groups.contains(other)),
        !groups.contains(pid) ==> without(groups, pid) == groups,
    decreases groups.len(),
{
    broadcast use vstd::seq_lib::group_seq_properties;

    if groups.len() > 0 {
        lemma_without(groups.drop_last(), pid);
        assert(groups.drop_last().push(groups.last()) =~= groups);
        assert(groups.contains(groups.last()));
    }
}

/// A start whose outcome was never recorded blocks both another start and the clearing of
/// the record.
pub proof fn law_interrupted_spawn_blocks_reuse(record: RuntimeView, gone: Seq<bool>)
    requires
        !record.pending_spawn,
    ensures
        ({
            let begun = spawn_begun(record)->Ok_0;
            &&& spawn_begun(begun) == Err::<RuntimeView, Error>(Error::UnrecordedSpawn)
            &&& clear_next(Some(begun), gone) == ClearNext::Failed(Error::InterruptedSpawn)
        }),
{
}

/// The record is removed only when no start is pending and every group in it was found to
/// be gone; a group that was not blocks it.
pub proof fn law_living_group_blocks_recovery(record: RuntimeView, gone: Seq<bool>)
    requires
        gone.len() <= record.groups.len(),
    ensures
        clear_next(Some(record), gone) is Remove <==> !record.pending_spawn && gone.len()
            == record.groups.len() && forall|i: int| 0 <= i < gone.len() ==> #[trigger] gone[i],
        !record.pending_spawn && gone.contains(false) ==> clear_next(Some(record), gone)
            == ClearNext::Failed(Error::ChildMayBeRunning),
{
    if !gone.contains(false) {
        assert forall|i: int| 0 <= i < gone.len() implies #[trigger] gone[i] by {
            if !gone[i] {
                assert(gone.contains(false));
            }
        }
    }
}

/// A record that only ever took registered groups holds only numbers that name groups, so
/// that its clearing never meets one that does not.
pub proof fn law_registered_groups_stay_valid(record: RuntimeView, pid: u32)
    requires
        forall|i: int| 0 <= i < record.groups.len() ==> is_group(#[trigger] record.groups[i]),
        spawn_registered(record, pid) is Ok,
    ensures
        forall|i: int|
            0 <= i < spawn_registered(record, pid)->Ok_0.groups.len() ==> is_group(
                #[trigger] spawn_registered(record, pid)->Ok_0.groups[i],
            ),
{
}

proof fn lemma_profile_path(root: Seq<u8>, name: Seq<char>)
    requires
        is_name(name),
    ensures
        profile_path(root, name) == profiles_path(root).push(SLASH) + path_bytes(name),
        path_bytes(name).len() == name.len(),
        forall|i: int| 0 <= i < name.len() ==> path_bytes(name)[i] == name[i] as u8,
{
    vstd::utf8::is_ascii_chars_encode_utf8(name);
    reveal_strlit("profiles");
    vstd::utf8::is_ascii_chars_encode_utf8("profiles"@);
    assert(is_name_start(name[0]));
    let part = path_bytes("profiles"@);
    assert(part.len() == 8);
    assert(part[7] == 's' as u8);
    assert(profiles_path(root).last() == part.last());
}

/// The name of a profile cannot lead out of the directory of all profiles: what is appended
/// to that directory holds no separator and is neither `.` nor `..`.
pub proof fn law_names_stay_inside(root: Seq<u8>, name: Seq<char>)
    requires
        is_name(name),
    ensures
        profile_path(root, name) == profiles_path(root).push(SLASH) + path_bytes(name),
        !path_bytes(name).contains(SLASH),
        !path_bytes(name).contains(46u8),
        path_bytes(name).len() > 0,
{
    lemma_profile_path(root, name);
    assert forall|i: int| 0 <= i < path_bytes(name).len() implies path_bytes(name)[i] != SLASH
        && path_bytes(name)[i] != 46u8 by {
        assert(is_name_char(name[i]));
    }
}

/// Different profiles have different directories.
pub proof fn law_profiles_are_separate(root: Seq<u8>, a: Seq<char>, b: Seq<char>)
    requires
        is_name(a),
        is_name(b),
        profile_path(root, a) == profile_path(root, b),
    ensures
        a == b,
{
    lemma_profile_path(root, a);
    lemma_profile_path(root, b);
    let base = profiles_path(root).push(SLASH);
    assert((base + path_bytes(a)).skip(base.len() as int) =~= path_bytes(a));
    assert((base + path_bytes(b)).skip(base.len() as int) =~= path_bytes(b));
    lemma_path_bytes_injective(a, b);
}

} // verus!
