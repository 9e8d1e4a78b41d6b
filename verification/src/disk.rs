//! What the steps on the files of profiles come to on a disk: which record is read after one
//! was saved or removed.
//!
//! The disk is a model: it says what opening, replacing and removing a file do. That the system
//! may also fail on the way is left out; a step that fails ends what it belongs to.

use crate::error::Error;
use crate::profile::{DirectoryFacts, Opened, ReadNext, RemoveNext, MAX_RECORD};
use vstd::prelude::*;

use crate::json::json_read;
use crate::path::{is_rooted, joined_path, lemma_path_bytes_injective, path_bytes, SLASH};
use crate::profile::{
    directory_fault, file_fault, is_name, law_names_stay_inside, law_profiles_are_separate,
    profile_path, read_next, record_accepted, removal_next, save_steps, MetadataView, RuntimeView,
    SaveStepView,
};
use crate::record::{
    law_metadata_is_read_as_written, law_runtime_is_read_as_written, metadata_in, runtime_in,
};

verus! {

/// What lies at a path.
pub enum Entry {
    Directory { mode: u32 },
    File { mode: u32, bytes: Seq<u8> },
    Link,
}

/// A disk.
pub struct Disk {
    pub entries: Map<Seq<u8>, Entry>,
    /// The system's words when it does not open a link.
    pub refusal: Error,
}

/// A disk while a record is being saved, and the new file that has no place yet.
pub struct Saving {
    pub disk: Disk,
    pub temporary: Option<Seq<u8>>,
}

/// Where what is remembered of a profile lies.
pub open spec fn metadata_path(root: Seq<u8>, name: Seq<char>) -> Seq<u8> {
    joined_path(profile_path(root, name), path_bytes("metadata.json"@))
}

/// Where a profile's record of children lies.
pub open spec fn runtime_path(root: Seq<u8>, name: Seq<char>) -> Seq<u8> {
    joined_path(profile_path(root, name), path_bytes("runtime.json"@))
}

/// Where the home of a profile's helper lies.
pub open spec fn home_path(root: Seq<u8>, name: Seq<char>) -> Seq<u8> {
    joined_path(profile_path(root, name), path_bytes("home"@))
}

impl Disk {
    /// What lies at a path, if anything.
    pub open spec fn at(self, path: Seq<u8>) -> Option<Entry> {
        if self.entries.contains_key(path) {
            Some(self.entries[path])
        } else {
            None
        }
    }

    /// What the system says of a directory.
    pub open spec fn facts(self, path: Seq<u8>) -> Option<DirectoryFacts> {
        match self.at(path) {
            Some(Entry::Directory { mode }) => Some(
                DirectoryFacts { directory: true, symlink: false, mode },
            ),
            Some(Entry::File { mode, .. }) => Some(
                DirectoryFacts { directory: false, symlink: false, mode },
            ),
            Some(Entry::Link) => Some(
                DirectoryFacts { directory: false, symlink: true, mode: 0o777 },
            ),
            None => None,
        }
    }

    /// How the opening of a private file goes: links are not followed.
    pub open spec fn opened(self, path: Seq<u8>) -> Opened {
        let fault = match self.at(path) {
            Some(Entry::File { mode, .. }) => file_fault(true, mode),
            Some(Entry::Directory { mode }) => file_fault(false, mode),
            Some(Entry::Link) => Some(self.refusal),
            None => None,
        };
        match fault {
            Some(error) => Opened::Failed(error),
            None => if self.at(path) is None {
                Opened::Missing
            } else {
                Opened::Opened
            },
        }
    }

    /// The disk with a private file in a place.
    pub open spec fn with_file(self, path: Seq<u8>, bytes: Seq<u8>) -> Disk {
        Disk { entries: self.entries.insert(path, Entry::File { mode: 0o600, bytes }), ..self }
    }

    /// The disk after all steps of saving a record, or what they failed with.
    pub open spec fn saved(self, steps: Seq<SaveStepView>) -> Result<Disk, Error> {
        Saving { disk: self, temporary: None }.after(steps)
    }

    /// The disk after a private file was removed, or why it was not.
    pub open spec fn removed(self, path: Seq<u8>) -> Result<Disk, Error> {
        match removal_next(self.opened(path)) {
            RemoveNext::Remove => Ok(Disk { entries: self.entries.remove(path), ..self }),
            RemoveNext::Absent => Ok(self),
            RemoveNext::Failed(error) => Err(error),
        }
    }

    /// The bytes of the record at a path, if there is one, or why it is not read.
    pub open spec fn bytes_at(self, path: Seq<u8>) -> Result<Option<Seq<u8>>, Error> {
        match read_next(self.opened(path)) {
            ReadNext::Read => Ok(Some(self.entries[path]->bytes)),
            ReadNext::Absent => Ok(None),
            ReadNext::Failed(error) => Err(error),
        }
    }

    /// What is remembered at a path, if anything, or why it is not read.
    pub open spec fn metadata_at(self, path: Seq<u8>) -> Result<Option<MetadataView>, Error> {
        match self.bytes_at(path) {
            Ok(Some(bytes)) => match record_accepted(bytes.len(), metadata_in(bytes)) {
                Ok(metadata) => Ok(Some(metadata)),
                Err(error) => Err(error),
            },
            Ok(None) => Ok(None),
            Err(error) => Err(error),
        }
    }

    /// The record of children at a path, if there is one, or why it is not read.
    pub open spec fn runtime_at(self, path: Seq<u8>) -> Result<Option<RuntimeView>, Error> {
        match self.bytes_at(path) {
            Ok(Some(bytes)) => match record_accepted(bytes.len(), runtime_in(bytes)) {
                Ok(runtime) => Ok(Some(runtime)),
                Err(error) => Err(error),
            },
            Ok(None) => Ok(None),
            Err(error) => Err(error),
        }
    }
}

impl Saving {
    /// One step of saving a record.
    pub open spec fn step(self, step: SaveStepView) -> Result<Saving, Error> {
        match step {
            SaveStepView::CheckDirectory(path) => match directory_fault(self.disk.facts(path)) {
                Some(error) => Err(error),
                None => Ok(self),
            },
            SaveStepView::CheckExisting(path) => match self.disk.opened(path) {
                Opened::Failed(error) => Err(error),
                _ => Ok(self),
            },
            SaveStepView::WriteTemporary { bytes, .. } => Ok(
                Saving { temporary: Some(bytes), ..self },
            ),
            SaveStepView::Replace(path) => match self.temporary {
                Some(bytes) => Ok(
                    Saving { disk: self.disk.with_file(path, bytes), temporary: None },
                ),
                None => Ok(self),
            },
            SaveStepView::SyncDirectory(_) => Ok(self),
        }
    }

    /// The disk after these steps, or what they failed with.
    pub open spec fn after(self, steps: Seq<SaveStepView>) -> Result<Disk, Error>
        decreases steps.len(),
    {
        if steps.len() == 0 {
            Ok(self.disk)
        } else {
            match self.step(steps[0]) {
                Ok(next) => next.after(steps.skip(1)),
                Err(error) => Err(error),
            }
        }
    }
}

/// A record is saved exactly where its directory is private and what lies in its place, if
/// anything, is a private file. Nothing else on the disk changes then.
pub proof fn law_records_are_saved_in_private_places(
    disk: Disk,
    directory: Seq<u8>,
    path: Seq<u8>,
    bytes: Seq<u8>,
)
    ensures
        disk.saved(save_steps(directory, path, bytes)) == (match directory_fault(
            disk.facts(directory),
        ) {
            Some(error) => Err(error),
            None => match disk.opened(path) {
                Opened::Failed(error) => Err(error),
                _ => Ok(disk.with_file(path, bytes)),
            },
        }),
{
    let steps = save_steps(directory, path, bytes);
    let begun = Saving { disk, temporary: None };
    let written = Saving { disk, temporary: Some(bytes) };
    let replaced = Saving { disk: disk.with_file(path, bytes), temporary: None };
    assert(steps.skip(1)[0] == steps[1]);
    assert(steps.skip(1).skip(1) =~= steps.skip(2));
    assert(steps.skip(2)[0] == steps[2]);
    assert(steps.skip(2).skip(1) =~= steps.skip(3));
    assert(steps.skip(3)[0] == steps[3]);
    assert(steps.skip(3).skip(1) =~= steps.skip(4));
    assert(steps.skip(4)[0] == steps[4]);
    assert(steps.skip(4).skip(1) =~= Seq::empty());
    assert(replaced.after(steps.skip(4).skip(1)) == Ok::<Disk, Error>(replaced.disk));
    assert(replaced.after(steps.skip(4)) == Ok::<Disk, Error>(replaced.disk));
    assert(written.after(steps.skip(3)) == Ok::<Disk, Error>(replaced.disk));
    assert(begun.after(steps.skip(2)) == Ok::<Disk, Error>(replaced.disk));
    assert(begun.after(steps.skip(1)) == (match disk.opened(path) {
        Opened::Failed(error) => Err(error),
        _ => Ok(replaced.disk),
    }));
    assert(begun.step(steps[0]) == (match directory_fault(disk.facts(directory)) {
        Some(error) => Err(error),
        None => Ok(begun),
    }));
}

/// Saving that is cut short, after any number of its steps, leaves the disk as it was or with
/// the whole record in its place: there is never a part of one.
pub proof fn law_interrupted_saving_leaves_a_whole_record(
    disk: Disk,
    directory: Seq<u8>,
    path: Seq<u8>,
    bytes: Seq<u8>,
    count: int,
)
    requires
        0 <= count <= save_steps(directory, path, bytes).len(),
    ensures
        disk.saved(save_steps(directory, path, bytes).take(count)) matches Ok(after) ==> after
            == disk || after == disk.with_file(path, bytes),
{
    let steps = save_steps(directory, path, bytes).take(count);
    lemma_saving(Saving { disk, temporary: None }, disk, path, bytes, steps);
}

proof fn lemma_saving(
    saving: Saving,
    disk: Disk,
    path: Seq<u8>,
    bytes: Seq<u8>,
    steps: Seq<SaveStepView>,
)
    requires
        saving.disk == disk || saving.disk == disk.with_file(path, bytes),
        saving.temporary is Some ==> saving.temporary == Some(bytes),
        forall|i: int|
            0 <= i < steps.len() ==> match #[trigger] steps[i] {
                SaveStepView::WriteTemporary { bytes: written, .. } => written == bytes,
                SaveStepView::Replace(place) => place == path,
                _ => true,
            },
    ensures
        saving.after(steps) matches Ok(after) ==> after == disk || after == disk.with_file(
            path,
            bytes,
        ),
    decreases steps.len(),
{
    if steps.len() > 0 {
        if let Ok(next) = saving.step(steps[0]) {
            assert(next.disk == disk || next.disk == disk.with_file(path, bytes)) by {
                assert(disk.with_file(path, bytes).with_file(path, bytes).entries
                    =~= disk.with_file(path, bytes).entries);
            }
            assert forall|i: int| 0 <= i < steps.skip(1).len() implies match
                #[trigger] steps.skip(1)[i] {
                SaveStepView::WriteTemporary { bytes: written, .. } => written == bytes,
                SaveStepView::Replace(place) => place == path,
                _ => true,
            } by {
                assert(steps.skip(1)[i] == steps[i + 1]);
            }
            lemma_saving(next, disk, path, bytes, steps.skip(1));
        }
    }
}

proof fn lemma_place(directory: Seq<u8>, part: Seq<char>)
    requires
        directory.len() > 0,
        directory.last() != SLASH,
        !is_rooted(path_bytes(part)),
    ensures
        joined_path(directory, path_bytes(part)) == directory.push(SLASH) + path_bytes(part),
{
}

proof fn lemma_parts()
    ensures
        !is_rooted(path_bytes("metadata.json"@)),
        !is_rooted(path_bytes("runtime.json"@)),
        !is_rooted(path_bytes("home"@)),
        "metadata.json"@ != "runtime.json"@,
        "metadata.json"@ != "home"@,
        "runtime.json"@ != "home"@,
        !path_bytes("metadata.json"@).contains(SLASH),
        !path_bytes("runtime.json"@).contains(SLASH),
        !path_bytes("home"@).contains(SLASH),
{
    reveal_strlit("metadata.json");
    reveal_strlit("runtime.json");
    reveal_strlit("home");
    vstd::utf8::is_ascii_chars_encode_utf8("metadata.json"@);
    vstd::utf8::is_ascii_chars_encode_utf8("runtime.json"@);
    vstd::utf8::is_ascii_chars_encode_utf8("home"@);
    assert("metadata.json"@.len() == 13);
    assert("runtime.json"@.len() == 12);
    assert("home"@.len() == 4);
}

proof fn lemma_same_place(
    root: Seq<u8>,
    name: Seq<char>,
    part: Seq<char>,
    other: Seq<char>,
    other_part: Seq<char>,
)
    requires
        is_name(name),
        is_name(other),
        !is_rooted(path_bytes(part)),
        !is_rooted(path_bytes(other_part)),
        !path_bytes(part).contains(SLASH),
        !path_bytes(other_part).contains(SLASH),
        joined_path(profile_path(root, name), path_bytes(part)) == joined_path(
            profile_path(root, other),
            path_bytes(other_part),
        ),
    ensures
        name == other,
        part == other_part,
{
    law_names_stay_inside(root, name);
    law_names_stay_inside(root, other);
    let a = profile_path(root, name);
    let b = profile_path(root, other);
    let x = path_bytes(part);
    let y = path_bytes(other_part);
    assert(a.last() == path_bytes(name).last());
    assert(path_bytes(name).contains(path_bytes(name).last()));
    assert(b.last() == path_bytes(other).last());
    assert(path_bytes(other).contains(path_bytes(other).last()));
    lemma_place(a, part);
    lemma_place(b, other_part);
    let whole = a.push(SLASH) + x;
    assert(whole == b.push(SLASH) + y);
    // the last separator stands in front of both parts.
    if a.len() < b.len() {
        assert(whole[b.len() as int] == SLASH);
        assert(x[b.len() - a.len() - 1] == SLASH);
        assert(x.contains(SLASH));
    } else if b.len() < a.len() {
        assert(whole[a.len() as int] == SLASH);
        assert(y[a.len() - b.len() - 1] == SLASH);
        assert(y.contains(SLASH));
    }
    assert(a =~= whole.take(a.len() as int));
    assert(b =~= whole.take(b.len() as int));
    assert(x =~= whole.skip(a.len() as int + 1));
    assert(y =~= whole.skip(b.len() as int + 1));
    law_profiles_are_separate(root, name, other);
    lemma_path_bytes_injective(part, other_part);
}

/// The records of different profiles lie in different places, and so do a profile's records
/// and the home of its helper.
pub proof fn law_records_have_places_of_their_own(
    root: Seq<u8>,
    name: Seq<char>,
    other: Seq<char>,
)
    requires
        is_name(name),
        is_name(other),
    ensures
        metadata_path(root, name) == metadata_path(root, other) ==> name == other,
        runtime_path(root, name) == runtime_path(root, other) ==> name == other,
        metadata_path(root, name) != runtime_path(root, other),
        metadata_path(root, name) != home_path(root, other),
        runtime_path(root, name) != home_path(root, other),
{
    lemma_parts();
    if metadata_path(root, name) == metadata_path(root, other) {
        lemma_same_place(root, name, "metadata.json"@, other, "metadata.json"@);
    }
    if runtime_path(root, name) == runtime_path(root, other) {
        lemma_same_place(root, name, "runtime.json"@, other, "runtime.json"@);
    }
    if metadata_path(root, name) == runtime_path(root, other) {
        lemma_same_place(root, name, "metadata.json"@, other, "runtime.json"@);
    }
    if metadata_path(root, name) == home_path(root, other) {
        lemma_same_place(root, name, "metadata.json"@, other, "home"@);
    }
    if runtime_path(root, name) == home_path(root, other) {
        lemma_same_place(root, name, "runtime.json"@, other, "home"@);
    }
}

proof fn lemma_file_is_read(disk: Disk, path: Seq<u8>, bytes: Seq<u8>)
    ensures
        disk.with_file(path, bytes).at(path) == Some(Entry::File { mode: 0o600, bytes }),
        disk.with_file(path, bytes).bytes_at(path) == Ok::<Option<Seq<u8>>, Error>(Some(bytes)),
{
    assert(0o600u32 & 0o777 == 0o600) by (bit_vector);
}

proof fn lemma_elsewhere(before: Disk, after: Disk, path: Seq<u8>)
    requires
        before.at(path) == after.at(path),
        before.refusal == after.refusal,
    ensures
        after.metadata_at(path) == before.metadata_at(path),
        after.runtime_at(path) == before.runtime_at(path),
{
    assert(after.opened(path) == before.opened(path));
    assert(after.bytes_at(path) == before.bytes_at(path));
}

/// What was saved of a profile is what is read of it afterwards, in a file for its owner
/// alone. What is remembered of other profiles, the records of children and the homes of
/// helpers stay as they were.
///
/// The bytes are those that saving writes: `Metadata::written` ensures what is asked of them.
/// A record with more bytes than are read is saved too, and refused when it is read.
pub proof fn law_saved_metadata_is_read_back(
    disk: Disk,
    root: Seq<u8>,
    name: Seq<char>,
    other: Seq<char>,
    metadata: MetadataView,
    bytes: Seq<u8>,
    after: Disk,
)
    requires
        is_name(name),
        is_name(other),
        json_read(bytes) == Some(metadata.record()),
        bytes.len() <= MAX_RECORD,
        disk.saved(save_steps(profile_path(root, name), metadata_path(root, name), bytes)) == Ok::<
            Disk,
            Error,
        >(after),
    ensures
        after.metadata_at(metadata_path(root, name)) == Ok::<Option<MetadataView>, Error>(
            Some(metadata),
        ),
        after.at(metadata_path(root, name)) == Some(Entry::File { mode: 0o600, bytes }),
        other != name ==> after.metadata_at(metadata_path(root, other)) == disk.metadata_at(
            metadata_path(root, other),
        ),
        after.runtime_at(runtime_path(root, other)) == disk.runtime_at(runtime_path(root, other)),
        after.at(home_path(root, other)) == disk.at(home_path(root, other)),
{
    let path = metadata_path(root, name);
    law_records_are_saved_in_private_places(disk, profile_path(root, name), path, bytes);
    law_records_have_places_of_their_own(root, name, other);
    law_metadata_is_read_as_written(metadata);
    lemma_file_is_read(disk, path, bytes);
    lemma_elsewhere(disk, after, runtime_path(root, other));
    if other != name {
        lemma_elsewhere(disk, after, metadata_path(root, other));
    }
}

/// A record of children that was saved is what is read afterwards; other profiles' records and
/// what is remembered of any profile stay as they were.
pub proof fn law_saved_runtime_is_read_back(
    disk: Disk,
    root: Seq<u8>,
    name: Seq<char>,
    other: Seq<char>,
    runtime: RuntimeView,
    bytes: Seq<u8>,
    after: Disk,
)
    requires
        is_name(name),
        is_name(other),
        json_read(bytes) == Some(runtime.record()),
        bytes.len() <= MAX_RECORD,
        disk.saved(save_steps(profile_path(root, name), runtime_path(root, name), bytes)) == Ok::<
            Disk,
            Error,
        >(after),
    ensures
        after.runtime_at(runtime_path(root, name)) == Ok::<Option<RuntimeView>, Error>(
            Some(runtime),
        ),
        other != name ==> after.runtime_at(runtime_path(root, other)) == disk.runtime_at(
            runtime_path(root, other),
        ),
        after.metadata_at(metadata_path(root, other)) == disk.metadata_at(
            metadata_path(root, other),
        ),
        after.at(home_path(root, other)) == disk.at(home_path(root, other)),
{
    let path = runtime_path(root, name);
    law_records_are_saved_in_private_places(disk, profile_path(root, name), path, bytes);
    law_records_have_places_of_their_own(root, name, other);
    law_records_have_places_of_their_own(root, other, name);
    law_runtime_is_read_as_written(runtime);
    lemma_file_is_read(disk, path, bytes);
    lemma_elsewhere(disk, after, metadata_path(root, other));
    if other != name {
        lemma_elsewhere(disk, after, runtime_path(root, other));
    }
}

/// What was removed of a profile is absent afterwards. The homes of helpers are still there,
/// and so is what is remembered of other profiles.
pub proof fn law_removed_metadata_is_absent(
    disk: Disk,
    root: Seq<u8>,
    name: Seq<char>,
    other: Seq<char>,
    after: Disk,
)
    requires
        is_name(name),
        is_name(other),
        disk.removed(metadata_path(root, name)) == Ok::<Disk, Error>(after),
    ensures
        after.metadata_at(metadata_path(root, name)) == Ok::<Option<MetadataView>, Error>(None),
        other != name ==> after.metadata_at(metadata_path(root, other)) == disk.metadata_at(
            metadata_path(root, other),
        ),
        after.runtime_at(runtime_path(root, other)) == disk.runtime_at(runtime_path(root, other)),
        after.at(home_path(root, other)) == disk.at(home_path(root, other)),
{
    law_records_have_places_of_their_own(root, name, other);
    lemma_elsewhere(disk, after, runtime_path(root, other));
    if other != name {
        lemma_elsewhere(disk, after, metadata_path(root, other));
    }
}

/// A link in the place of a record is neither read through, nor taken for an absent record,
/// nor written through, nor removed.
pub proof fn law_links_are_refused(
    disk: Disk,
    directory: Seq<u8>,
    path: Seq<u8>,
    bytes: Seq<u8>,
)
    requires
        disk.at(path) == Some(Entry::Link),
    ensures
        disk.metadata_at(path) == Err::<Option<MetadataView>, Error>(Error::CannotReadFile),
        disk.runtime_at(path) == Err::<Option<RuntimeView>, Error>(Error::CannotReadFile),
        disk.saved(save_steps(directory, path, bytes)) is Err,
        disk.removed(path) is Err,
{
    law_records_are_saved_in_private_places(disk, directory, path, bytes);
}

} // verus!
