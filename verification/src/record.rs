//! The records of a profile: how they are written as JSON, and what is read from them.
//!
//! A record is an object with a member for each field. A list of the fields in their order is
//! read too, and members that are not known are passed over.

use crate::json::{read_json, show_json, Json};
use crate::path::bytes_of;
use crate::profile::{Identity, Metadata, Runtime};
use vstd::prelude::*;

use crate::json::{
    items_view, json_read, json_written, lemma_items_view, JsonView, MAX_DEPTH,
};
use crate::profile::{IdentityView, MetadataView, RuntimeView};

verus! {

/// A field of a record: the member of an object, or the item of a list of all fields.
pub open spec fn field_of(record: JsonView, count: nat, place: int, name: Seq<char>) -> Option<
    JsonView,
> {
    match record {
        JsonView::Array(items) => if items.len() == count {
            Some(items[place])
        } else {
            None
        },
        _ => record.get(name),
    }
}

/// A field that is a text.
pub open spec fn text_field(record: JsonView, count: nat, place: int, name: Seq<char>) -> Option<
    Seq<char>,
> {
    match field_of(record, count, place, name) {
        Some(value) => value.as_text(),
        None => None,
    }
}

/// A text, or null, as it stands in a record.
pub open spec fn optional_text(text: Option<Seq<char>>) -> JsonView {
    match text {
        Some(held) => JsonView::Text(held),
        None => JsonView::Null,
    }
}

impl IdentityView {
    /// How an identity is written.
    pub open spec fn record(self) -> JsonView {
        JsonView::object().with("account_id"@, JsonView::Text(self.account_id)).with(
            "user_id"@,
            JsonView::Text(self.user_id),
        ).with("email"@, optional_text(self.email)).with(
            "plan_type"@,
            JsonView::Text(self.plan_type),
        )
    }
}

/// The identity that a record is of, if it is of any: the address may be null or missing.
pub open spec fn identity_of(record: JsonView) -> Option<IdentityView> {
    let account_id = text_field(record, 4, 0, "account_id"@);
    let user_id = text_field(record, 4, 1, "user_id"@);
    let email = field_of(record, 4, 2, "email"@);
    let plan_type = text_field(record, 4, 3, "plan_type"@);
    if account_id is Some && user_id is Some && plan_type is Some && (email is None || email->0
        is Null || email->0 is Text) {
        Some(
            IdentityView {
                account_id: account_id->0,
                user_id: user_id->0,
                email: match email {
                    Some(value) => value.as_text(),
                    None => None,
                },
                plan_type: plan_type->0,
            },
        )
    } else {
        None
    }
}

impl MetadataView {
    /// How what is remembered is written.
    pub open spec fn record(self) -> JsonView {
        JsonView::object().with("identity"@, self.identity.record()).with(
            "last_verified"@,
            JsonView::Unsigned(self.last_verified),
        )
    }
}

/// What a record remembers, if it is one.
pub open spec fn metadata_of(record: JsonView) -> Option<MetadataView> {
    match (field_of(record, 2, 0, "identity"@), field_of(record, 2, 1, "last_verified"@)) {
        (Some(identity), Some(verified)) => match (identity_of(identity), verified.as_unsigned()) {
            (Some(identity), Some(last_verified)) => Some(MetadataView { identity, last_verified }),
            _ => None,
        },
        _ => None,
    }
}

/// What the bytes of a record remember, if they are of one.
pub open spec fn metadata_in(bytes: Seq<u8>) -> Option<MetadataView> {
    match json_read(bytes) {
        Some(record) => metadata_of(record),
        None => None,
    }
}

impl RuntimeView {
    /// How a record of children is written.
    pub open spec fn record(self) -> JsonView {
        JsonView::object().with("pending_spawn"@, JsonView::Bool(self.pending_spawn)).with(
            "groups"@,
            groups_record(self.groups),
        )
    }
}

/// How process groups are written.
pub open spec fn groups_record(groups: Seq<u32>) -> JsonView {
    JsonView::Array(groups.map_values(|group: u32| JsonView::Unsigned(group as u64)))
}

/// Whether a value is a 32-bit number.
pub open spec fn is_short(value: JsonView) -> bool {
    value matches JsonView::Unsigned(n) && n <= u32::MAX
}

/// The process groups in a list, if it is one of 32-bit numbers.
pub open spec fn groups_of(value: JsonView) -> Option<Seq<u32>> {
    match value {
        JsonView::Array(items) => if forall|i: int|
            0 <= i < items.len() ==> is_short(#[trigger] items[i]) {
            Some(items.map_values(|item: JsonView| item->Unsigned_0 as u32))
        } else {
            None
        },
        _ => None,
    }
}

/// The record of children that a value is, if it is one.
pub open spec fn runtime_of(record: JsonView) -> Option<RuntimeView> {
    match (field_of(record, 2, 0, "pending_spawn"@), field_of(record, 2, 1, "groups"@)) {
        (Some(pending), Some(groups)) => match (pending.as_bool(), groups_of(groups)) {
            (Some(pending_spawn), Some(groups)) => Some(RuntimeView { pending_spawn, groups }),
            _ => None,
        },
        _ => None,
    }
}

/// The record of children in bytes, if they are of one.
pub open spec fn runtime_in(bytes: Seq<u8>) -> Option<RuntimeView> {
    match json_read(bytes) {
        Some(record) => runtime_of(record),
        None => None,
    }
}

fn field<'a>(record: &'a Json, count: usize, place: usize, name: &str) -> (value: Option<&'a Json>)
    requires
        place < count,
    ensures
        match value {
            Some(held) => field_of(record@, count as nat, place as int, name@) == Some(held@),
            None => field_of(record@, count as nat, place as int, name@) is None,
        },
{
    match record {
        Json::Array(items) => {
            proof {
                lemma_items_view(items@);
            }
            if items.len() == count {
                Some(&items[place])
            } else {
                None
            }
        },
        _ => record.get(name),
    }
}

fn text_in(record: &Json, count: usize, place: usize, name: &str) -> (text: Option<String>)
    requires
        place < count,
    ensures
        crate::profile::text_view(text) == text_field(record@, count as nat, place as int, name@),
{
    match field(record, count, place, name) {
        Some(value) => match value.as_text() {
            Some(text) => Some(text.to_owned()),
            None => None,
        },
        None => None,
    }
}

impl Identity {
    /// The identity as a record.
    pub fn record(&self) -> (record: Json)
        ensures
            record@ == self@.record(),
    {
        let email = match &self.email {
            Some(email) => Json::text(email.as_str()),
            None => Json::Null,
        };
        Json::object().with("account_id", Json::text(self.account_id.as_str())).with(
            "user_id",
            Json::text(self.user_id.as_str()),
        ).with("email", email).with("plan_type", Json::text(self.plan_type.as_str()))
    }

    /// The identity that a record is of, if it is of any.
    pub fn of_record(record: &Json) -> (identity: Option<Identity>)
        ensures
            match identity {
                Some(found) => identity_of(record@) == Some(found@),
                None => identity_of(record@) is None,
            },
    {
        let email = match field(record, 4, 2, "email") {
            Some(value) => if value.is_null() {
                None
            } else {
                match value.as_text() {
                    Some(text) => Some(text.to_owned()),
                    None => return None,
                }
            },
            None => None,
        };
        match (
            text_in(record, 4, 0, "account_id"),
            text_in(record, 4, 1, "user_id"),
            text_in(record, 4, 3, "plan_type"),
        ) {
            (Some(account_id), Some(user_id), Some(plan_type)) => Some(
                Identity { account_id, user_id, email, plan_type },
            ),
            _ => None,
        }
    }
}

impl Metadata {
    /// What is remembered, as a record.
    pub fn record(&self) -> (record: Json)
        ensures
            record@ == self@.record(),
    {
        Json::object().with("identity", self.identity.record()).with(
            "last_verified",
            Json::Unsigned(self.last_verified),
        )
    }

    /// What a record remembers, if it is one.
    pub fn of_record(record: &Json) -> (metadata: Option<Metadata>)
        ensures
            match metadata {
                Some(found) => metadata_of(record@) == Some(found@),
                None => metadata_of(record@) is None,
            },
    {
        match (field(record, 2, 0, "identity"), field(record, 2, 1, "last_verified")) {
            (Some(identity), Some(verified)) => match (
                Identity::of_record(identity),
                verified.as_unsigned(),
            ) {
                (Some(identity), Some(last_verified)) => Some(
                    Metadata { identity, last_verified },
                ),
                _ => None,
            },
            _ => None,
        }
    }

    /// The bytes of the record, from which it is read again as it is.
    pub fn written(&self) -> (bytes: Vec<u8>)
        ensures
            json_written(self@.record()) == Some(bytes@),
            json_read(bytes@) == Some(self@.record()),
    {
        proof {
            lemma_metadata_is_plain(self@);
        }
        bytes_of(show_json(&self.record()).as_str())
    }

    /// What the bytes of a record remember, if they are of one.
    pub fn read(bytes: &[u8]) -> (metadata: Option<Metadata>)
        ensures
            match metadata {
                Some(found) => metadata_in(bytes@) == Some(found@),
                None => metadata_in(bytes@) is None,
            },
    {
        match read_json(bytes) {
            Some(record) => Metadata::of_record(&record),
            None => None,
        }
    }
}

impl Runtime {
    /// The record of children as a value.
    pub fn record(&self) -> (record: Json)
        ensures
            record@ == self@.record(),
    {
        let mut items: Vec<Json> = Vec::new();
        let mut i: usize = 0;
        while i < self.groups.len()
            invariant
                i <= self.groups.len(),
                items.len() == i,
                forall|j: int|
                    0 <= j < i ==> (#[trigger] items@[j])@ == JsonView::Unsigned(
                        self.groups@[j] as u64,
                    ),
            decreases self.groups.len() - i,
        {
            items.push(Json::Unsigned(self.groups[i] as u64));
            i += 1;
        }
        proof {
            lemma_items_view(items@);
            let views = items_view(items@);
            let written = groups_record(self.groups@)->Array_0;
            assert forall|j: int| 0 <= j < views.len() implies views[j] == written[j] by {
                assert(views[j] == items@[j]@);
            }
            assert(views =~= written);
        }
        Json::object().with("pending_spawn", Json::Bool(self.pending_spawn)).with(
            "groups",
            Json::Array(items),
        )
    }

    /// The record of children that a value is, if it is one.
    pub fn of_record(record: &Json) -> (runtime: Option<Runtime>)
        ensures
            match runtime {
                Some(found) => runtime_of(record@) == Some(found@),
                None => runtime_of(record@) is None,
            },
    {
        match (field(record, 2, 0, "pending_spawn"), field(record, 2, 1, "groups")) {
            (Some(pending), Some(groups)) => match (pending.as_bool(), groups_in(groups)) {
                (Some(pending_spawn), Some(groups)) => Some(Runtime { pending_spawn, groups }),
                _ => None,
            },
            _ => None,
        }
    }

    /// The bytes of the record, from which it is read again as it is.
    pub fn written(&self) -> (bytes: Vec<u8>)
        ensures
            json_written(self@.record()) == Some(bytes@),
            json_read(bytes@) == Some(self@.record()),
    {
        proof {
            lemma_runtime_is_plain(self@);
        }
        bytes_of(show_json(&self.record()).as_str())
    }

    /// The record of children in bytes, if they are of one.
    pub fn read(bytes: &[u8]) -> (runtime: Option<Runtime>)
        ensures
            match runtime {
                Some(found) => runtime_in(bytes@) == Some(found@),
                None => runtime_in(bytes@) is None,
            },
    {
        match read_json(bytes) {
            Some(record) => Runtime::of_record(&record),
            None => None,
        }
    }
}

fn groups_in(value: &Json) -> (groups: Option<Vec<u32>>)
    ensures
        match groups {
            Some(found) => groups_of(value@) == Some(found@),
            None => groups_of(value@) is None,
        },
{
    match value {
        Json::Array(items) => {
            proof {
                lemma_items_view(items@);
            }
            let ghost views = items_view(items@);
            let mut groups: Vec<u32> = Vec::new();
            let mut i: usize = 0;
            while i < items.len()
                invariant
                    i <= items.len(),
                    views == items_view(items@),
                    views.len() == items.len(),
                    forall|j: int| 0 <= j < items.len() ==> #[trigger] views[j] == items@[j]@,
                    forall|j: int| 0 <= j < i ==> is_short(#[trigger] views[j]),
                    groups@ == views.take(i as int).map_values(
                        |item: JsonView| item->Unsigned_0 as u32,
                    ),
                    value@ == JsonView::Array(views),
                decreases items.len() - i,
            {
                assert(views[i as int] == items@[i as int]@);
                match items[i].as_unsigned() {
                    Some(number) => if number <= u32::MAX as u64 {
                        groups.push(number as u32);
                    } else {
                        assert(!is_short(views[i as int]));
                        return None;
                    },
                    None => {
                        assert(!is_short(views[i as int]));
                        return None;
                    },
                }
                assert(groups@ =~= views.take(i + 1).map_values(
                    |item: JsonView| item->Unsigned_0 as u32,
                ));
                i += 1;
            }
            assert(views.take(i as int) =~= views);
            Some(groups)
        },
        _ => None,
    }
}

proof fn lemma_fields()
    ensures
        "account_id"@ != "user_id"@,
        "account_id"@ != "email"@,
        "account_id"@ != "plan_type"@,
        "user_id"@ != "email"@,
        "user_id"@ != "plan_type"@,
        "email"@ != "plan_type"@,
        "identity"@ != "last_verified"@,
        "pending_spawn"@ != "groups"@,
{
    reveal_strlit("account_id");
    reveal_strlit("user_id");
    reveal_strlit("email");
    reveal_strlit("plan_type");
    reveal_strlit("identity");
    reveal_strlit("last_verified");
    reveal_strlit("pending_spawn");
    reveal_strlit("groups");
    assert("account_id"@.len() == 10);
    assert("user_id"@.len() == 7);
    assert("email"@.len() == 5);
    assert("plan_type"@.len() == 9);
    assert("identity"@.len() == 8);
    assert("last_verified"@.len() == 13);
    assert("pending_spawn"@.len() == 13);
    assert("groups"@.len() == 6);
}

proof fn lemma_metadata_is_plain(metadata: MetadataView)
    ensures
        metadata.record().plain(MAX_DEPTH as nat),
{
    reveal_with_fuel(JsonView::plain, 3);
    let identity = metadata.identity.record();
    assert(identity.plain((MAX_DEPTH - 1) as nat));
}

proof fn lemma_runtime_is_plain(runtime: RuntimeView)
    ensures
        runtime.record().plain(MAX_DEPTH as nat),
{
    reveal_with_fuel(JsonView::plain, 3);
    assert(groups_record(runtime.groups).plain((MAX_DEPTH - 1) as nat));
}

/// What is remembered of a profile is read from its record as it was written there.
pub proof fn law_metadata_is_read_as_written(metadata: MetadataView)
    ensures
        metadata_of(metadata.record()) == Some(metadata),
{
    lemma_fields();
    let identity = metadata.identity.record();
    assert(identity.get("email"@) == Some(optional_text(metadata.identity.email)));
    assert(identity_of(identity) == Some(metadata.identity));
}

/// The record of children is read as it was written.
pub proof fn law_runtime_is_read_as_written(runtime: RuntimeView)
    ensures
        runtime_of(runtime.record()) == Some(runtime),
{
    lemma_fields();
    let items = groups_record(runtime.groups)->Array_0;
    assert forall|i: int| 0 <= i < items.len() implies is_short(#[trigger] items[i]) by {}
    assert(groups_of(groups_record(runtime.groups))->0 =~= runtime.groups);
}

} // verus!
