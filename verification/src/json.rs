//! JSON values: what a message of the RPC protocol holds, and how it is read and written.

use crate::text::same_text;
use vstd::prelude::*;
use vstd::utf8::*;

verus! {

/// A number as `serde_json` holds it. Only numbers that are no 64-bit integer are kept in
/// this form, and they are only carried along.
#[verifier::external_type_specification]
#[verifier::external_body]
pub struct ExNumber(serde_json::Number);

/// A value as `serde_json` holds it.
#[verifier::external_type_specification]
#[verifier::external_body]
pub struct ExValue(serde_json::Value);

/// The clone of a `serde_json::Number` is the same number.
pub assume_specification[ <serde_json::Number as Clone>::clone ](
    number: &serde_json::Number,
) -> (copy: serde_json::Number)
    ensures
        copy == *number,
;

/// A JSON value.
///
/// A member of an object that is listed twice has the value that is listed last.
#[derive(Debug, PartialEq)]
pub enum Json {
    Null,
    Bool(bool),
    Unsigned(u64),
    Negative(i64),
    /// Any other number.
    Real(serde_json::Number),
    Text(String),
    Array(Vec<Json>),
    Object(Vec<(String, Json)>),
}

/// What a JSON value says: an object is a map from its keys.
pub enum JsonView {
    Null,
    Bool(bool),
    Unsigned(u64),
    Negative(i64),
    Real(serde_json::Number),
    Text(Seq<char>),
    Array(Seq<JsonView>),
    Object(Map<Seq<char>, JsonView>),
}

/// What a value says.
pub open spec fn json_view(value: Json) -> JsonView
    decreases value,
{
    match value {
        Json::Null => JsonView::Null,
        Json::Bool(b) => JsonView::Bool(b),
        Json::Unsigned(n) => JsonView::Unsigned(n),
        Json::Negative(n) => if n < 0 {
            JsonView::Negative(n)
        } else {
            JsonView::Unsigned(n as u64)
        },
        Json::Real(n) => JsonView::Real(n),
        Json::Text(s) => JsonView::Text(s@),
        Json::Array(items) => JsonView::Array(items_view(items@)),
        Json::Object(members) => JsonView::Object(members_view(members@)),
    }
}

/// What a list of values says.
pub open spec fn items_view(items: Seq<Json>) -> Seq<JsonView>
    decreases items,
{
    if items.len() == 0 {
        Seq::empty()
    } else {
        items_view(items.drop_last()).push(json_view(items.last()))
    }
}

/// What a list of members says: a later member replaces an earlier one of the same key.
pub open spec fn members_view(members: Seq<(String, Json)>) -> Map<Seq<char>, JsonView>
    decreases members,
{
    if members.len() == 0 {
        Map::empty()
    } else {
        members_view(members.drop_last()).insert(members.last().0@, json_view(members.last().1))
    }
}

impl View for Json {
    type V = JsonView;

    open spec fn view(&self) -> JsonView {
        json_view(*self)
    }
}

impl JsonView {
    /// The object without members.
    pub open spec fn object() -> JsonView {
        JsonView::Object(Map::empty())
    }

    /// The member of an object under a key.
    pub open spec fn get(self, key: Seq<char>) -> Option<JsonView> {
        match self {
            JsonView::Object(members) => if members.contains_key(key) {
                Some(members[key])
            } else {
                None
            },
            _ => None,
        }
    }

    /// Whether an object has a member under a key.
    pub open spec fn has(self, key: Seq<char>) -> bool {
        self.get(key) is Some
    }

    /// The member under a key, and null where there is none.
    pub open spec fn at(self, key: Seq<char>) -> JsonView {
        match self.get(key) {
            Some(value) => value,
            None => JsonView::Null,
        }
    }

    /// An object with one member set.
    pub open spec fn with(self, key: Seq<char>, value: JsonView) -> JsonView {
        match self {
            JsonView::Object(members) => JsonView::Object(members.insert(key, value)),
            _ => JsonView::Object(map![key => value]),
        }
    }

    /// What a text holds.
    pub open spec fn as_text(self) -> Option<Seq<char>> {
        match self {
            JsonView::Text(text) => Some(text),
            _ => None,
        }
    }

    /// What a text holds that is not empty.
    pub open spec fn as_filled_text(self) -> Option<Seq<char>> {
        match self {
            JsonView::Text(text) => if text.len() > 0 {
                Some(text)
            } else {
                None
            },
            _ => None,
        }
    }

    /// A truth value.
    pub open spec fn as_bool(self) -> Option<bool> {
        match self {
            JsonView::Bool(b) => Some(b),
            _ => None,
        }
    }

    /// A number that is an unsigned 64-bit integer.
    pub open spec fn as_unsigned(self) -> Option<u64> {
        match self {
            JsonView::Unsigned(n) => Some(n),
            _ => None,
        }
    }

    /// Whether the value is a number that is a signed 64-bit integer.
    pub open spec fn is_signed(self) -> bool {
        match self {
            JsonView::Unsigned(n) => n <= i64::MAX,
            JsonView::Negative(n) => true,
            _ => false,
        }
    }

    /// Whether the value can identify a request: a text or a 64-bit integer.
    pub open spec fn is_id(self) -> bool {
        self is Text || self is Unsigned || self is Negative
    }

    /// Whether the value nests at most `depth` arrays and objects and holds no number but
    /// 64-bit integers, each under the name for its sign.
    pub open spec fn plain(self, depth: nat) -> bool
        decreases depth,
    {
        match self {
            JsonView::Real(n) => false,
            JsonView::Negative(n) => n < 0,
            JsonView::Array(items) => depth > 0 && forall|i: int|
                0 <= i < items.len() ==> (#[trigger] items[i]).plain((depth - 1) as nat),
            JsonView::Object(members) => depth > 0 && forall|key: Seq<char>|
                members.contains_key(key) ==> (#[trigger] members[key]).plain((depth - 1) as nat),
            _ => true,
        }
    }
}

/// How many arrays and objects `serde_json` reads inside one another.
pub const MAX_DEPTH: usize = 127;

/// The value that `serde_json::from_slice` reads from bytes; none where it fails.
pub uninterp spec fn json_read(bytes: Seq<u8>) -> Option<JsonView>;

/// The bytes that `serde_json::to_vec` writes for a value; none where it fails.
pub uninterp spec fn json_written(value: JsonView) -> Option<Seq<u8>>;

/// Takes a `serde_json::Value` apart into a value of this library, part by part.
#[verifier::external_body]
fn from_outside(value: serde_json::Value) -> (json: Json) {
    match value {
        serde_json::Value::Null => Json::Null,
        serde_json::Value::Bool(b) => Json::Bool(b),
        serde_json::Value::Number(n) => match (n.as_u64(), n.as_i64()) {
            (Some(n), _) => Json::Unsigned(n),
            (None, Some(n)) => Json::Negative(n),
            (None, None) => Json::Real(n),
        },
        serde_json::Value::String(s) => Json::Text(s),
        serde_json::Value::Array(a) => Json::Array(a.into_iter().map(from_outside).collect()),
        serde_json::Value::Object(m) => Json::Object(m.into_iter().map(|e| (e.0, from_outside(e.1))).collect()),
    }
}

/// Puts the `serde_json::Value` together that a value of this library stands for.
#[verifier::external_body]
fn to_outside(json: &Json) -> (value: serde_json::Value) {
    match json {
        Json::Null => serde_json::Value::Null,
        Json::Bool(b) => (*b).into(),
        Json::Unsigned(n) => (*n).into(),
        Json::Negative(n) => (*n).into(),
        Json::Real(n) => n.clone().into(),
        Json::Text(s) => s.as_str().into(),
        Json::Array(a) => a.iter().map(to_outside).collect(),
        Json::Object(m) => m.iter().map(|e| (e.0.clone(), to_outside(&e.1))).collect(),
    }
}

/// Reads a value from bytes with `serde_json::from_slice`.
///
/// The value, or its absence, is a function of the bytes, which `json_read` names.
#[verifier::external_body]
pub(crate) fn read_json(bytes: &[u8]) -> (value: Option<Json>)
    ensures
        match value {
            Some(json) => json_read(bytes@) == Some(json@),
            None => json_read(bytes@) is None,
        },
{
    serde_json::from_slice(bytes).ok().map(from_outside)
}

/// Writes a value as bytes with `serde_json::to_vec`.
///
/// The bytes are a function of the value, which `json_written` names. They hold no line
/// feed: the compact form has no white space between its parts and escapes control
/// characters in texts. `serde_json::from_slice` reads the value back from them, also with
/// a line feed behind, where it nests no deeper than that function reads and holds no
/// number but 64-bit integers.
#[verifier::external_body]
pub(crate) fn write_json(value: &Json) -> (bytes: Option<Vec<u8>>)
    ensures
        match bytes {
            Some(written) => json_written(value@) == Some(written@),
            None => json_written(value@) is None,
        },
        bytes matches Some(written) ==> !written@.contains(10u8),
        bytes matches Some(written) ==> value@.plain(MAX_DEPTH as nat) ==> json_read(
            written@.push(10u8),
        ) == Some(value@),
{
    serde_json::to_vec(&to_outside(value)).ok()
}

/// Displays a value as text with the `Display` of `serde_json::Value`.
///
/// The text is the compact form that `serde_json::to_vec` writes as bytes, which
/// `json_written` names, and it is displayed for every value. `serde_json::from_slice` reads
/// the value back from it where it nests no deeper than that function reads and holds no
/// number but 64-bit integers.
#[verifier::external_body]
pub(crate) fn show_json(value: &Json) -> (text: String)
    ensures
        json_written(value@) == Some(encode_utf8(text@)),
        value@.plain(MAX_DEPTH as nat) ==> json_read(encode_utf8(text@)) == Some(value@),
{
    to_outside(value).to_string()
}

/// Every value of a list stands at its place.
pub proof fn lemma_items_view(items: Seq<Json>)
    ensures
        items_view(items).len() == items.len(),
        forall|i: int| 0 <= i < items.len() ==> #[trigger] items_view(items)[i] == items[i]@,
    decreases items.len(),
{
    if items.len() > 0 {
        lemma_items_view(items.drop_last());
        assert forall|i: int| 0 <= i < items.len() implies #[trigger] items_view(items)[i] == items[i]@ by {
            if i < items.len() - 1 {
                assert(items.drop_last()[i] == items[i]);
            }
        }
    }
}

/// Replacing the last member of a key sets that key.
proof fn lemma_members_update(members: Seq<(String, Json)>, i: int, key: String, value: Json)
    requires
        0 <= i < members.len(),
        members[i].0@ == key@,
        forall|j: int| i < j < members.len() ==> (#[trigger] members[j]).0@ != key@,
    ensures
        members_view(members.update(i, (key, value))) == members_view(members).insert(key@, value@),
    decreases members.len(),
{
    let changed = members.update(i, (key, value));
    if i == members.len() - 1 {
        assert(changed.drop_last() =~= members.drop_last());
        assert(members_view(changed) =~= members_view(members).insert(key@, value@));
    } else {
        let last = members.last();
        assert(members[members.len() - 1].0@ != key@);
        lemma_members_update(members.drop_last(), i, key, value);
        assert(changed.drop_last() =~= members.drop_last().update(i, (key, value)));
        assert(changed.last() == last);
        assert(members_view(changed) =~= members_view(members).insert(key@, value@));
    }
}

/// A member that another key's member follows is unaffected by it.
proof fn lemma_members_step(members: Seq<(String, Json)>, i: int, key: Seq<char>)
    requires
        0 < i <= members.len(),
    ensures
        members[i - 1].0@ != key ==> (members_view(members.take(i)).contains_key(key)
            == members_view(members.take(i - 1)).contains_key(key)) && (members_view(
            members.take(i),
        ).contains_key(key) ==> members_view(members.take(i))[key] == members_view(
            members.take(i - 1),
        )[key]),
        members[i - 1].0@ == key ==> members_view(members.take(i)).contains_key(key)
            && members_view(members.take(i))[key] == members[i - 1].1@,
{
    assert(members.take(i).drop_last() =~= members.take(i - 1));
    assert(members.take(i).last() == members[i - 1]);
}

impl Clone for Json {
    fn clone(&self) -> (copy: Json)
        ensures
            copy@ == self@,
        decreases *self,
    {
        match self {
            Json::Null => Json::Null,
            Json::Bool(b) => Json::Bool(*b),
            Json::Unsigned(n) => Json::Unsigned(*n),
            Json::Negative(n) => Json::Negative(*n),
            Json::Real(n) => Json::Real(n.clone()),
            Json::Text(s) => Json::Text(s.clone()),
            Json::Array(items) => {
                let mut copies: Vec<Json> = Vec::new();
                let mut i: usize = 0;
                while i < items.len()
                    invariant
                        i <= items.len(),
                        *self == Json::Array(*items),
                        items_view(copies@) == items_view(items@.take(i as int)),
                    decreases items.len() - i,
                {
                    proof {
                        assert(decreases_to!(*self => self->Array_0));
                        assert(decreases_to!(*items => items@));
                        assert(decreases_to!(items@ => items@[i as int]));
                    }
                    let copied = items[i].clone();
                    let ghost earlier = copies@;
                    copies.push(copied);
                    proof {
                        assert(copies@.drop_last() =~= earlier);
                        assert(items@.take(i + 1).drop_last() =~= items@.take(i as int));
                    }
                    i += 1;
                }
                assert(items@.take(items.len() as int) =~= items@);
                Json::Array(copies)
            },
            Json::Object(members) => {
                let mut copies: Vec<(String, Json)> = Vec::new();
                let mut i: usize = 0;
                while i < members.len()
                    invariant
                        i <= members.len(),
                        *self == Json::Object(*members),
                        members_view(copies@) == members_view(members@.take(i as int)),
                    decreases members.len() - i,
                {
                    proof {
                        assert(decreases_to!(*self => self->Object_0));
                        assert(decreases_to!(*members => members@));
                        assert(decreases_to!(members@ => members@[i as int]));
                        assert(decreases_to!(members@[i as int] => members@[i as int].1));
                    }
                    let key = members[i].0.clone();
                    let value = members[i].1.clone();
                    let ghost earlier = copies@;
                    copies.push((key, value));
                    proof {
                        assert(copies@.drop_last() =~= earlier);
                        assert(members@.take(i + 1).drop_last() =~= members@.take(i as int));
                    }
                    i += 1;
                }
                assert(members@.take(members.len() as int) =~= members@);
                Json::Object(copies)
            },
        }
    }
}

impl Json {
    /// The object without members.
    pub fn object() -> (json: Json)
        ensures
            json@ == JsonView::object(),
    {
        Json::Object(Vec::new())
    }

    /// A text.
    pub fn text(text: &str) -> (json: Json)
        ensures
            json@ == JsonView::Text(text@),
    {
        Json::Text(text.to_owned())
    }

    /// The member of an object under a key; none where the value is no object.
    pub fn get(&self, key: &str) -> (member: Option<&Json>)
        ensures
            match member {
                Some(value) => self@.get(key@) == Some(value@),
                None => self@.get(key@) is None,
            },
    {
        match self {
            Json::Object(members) => {
                let mut i: usize = members.len();
                assert(members@.take(i as int) =~= members@);
                while i > 0
                    invariant
                        i <= members.len(),
                        *self == Json::Object(*members),
                        members_view(members@).contains_key(key@) == members_view(
                            members@.take(i as int),
                        ).contains_key(key@),
                        members_view(members@).contains_key(key@) ==> members_view(members@)[key@]
                            == members_view(members@.take(i as int))[key@],
                    decreases i,
                {
                    proof {
                        lemma_members_step(members@, i as int, key@);
                    }
                    i -= 1;
                    if same_text(members[i].0.as_str(), key) {
                        return Some(&members[i].1);
                    }
                }
                None
            },
            _ => None,
        }
    }

    /// The member under a key, and null where there is none.
    pub fn at(&self, key: &str) -> (member: &Json)
        ensures
            member@ == self@.at(key@),
    {
        match self.get(key) {
            Some(value) => value,
            None => &Json::Null,
        }
    }

    /// Whether an object has a member under a key.
    pub fn has(&self, key: &str) -> (yes: bool)
        ensures
            yes == self@.has(key@),
    {
        self.get(key).is_some()
    }

    /// Sets one member of an object.
    pub fn with(self, key: &str, value: Json) -> (json: Json)
        requires
            self@ is Object,
        ensures
            json@ == self@.with(key@, value@),
    {
        match self {
            Json::Object(mut members) => {
                let ghost whole = members@;
                let mut i: usize = members.len();
                while i > 0
                    invariant
                        i <= members.len(),
                        members@ == whole,
                        self@ == JsonView::Object(members_view(whole)),
                        forall|j: int| i <= j < members.len() ==> (#[trigger] members@[j]).0@ != key@,
                    decreases i,
                {
                    i -= 1;
                    if same_text(members[i].0.as_str(), key) {
                        let name = key.to_owned();
                        proof {
                            lemma_members_update(members@, i as int, name, value);
                        }
                        members.set(i, (name, value));
                        return Json::Object(members);
                    }
                }
                let ghost earlier = members@;
                members.push((key.to_owned(), value));
                assert(members@.drop_last() =~= earlier);
                Json::Object(members)
            },
            other => other,
        }
    }

    /// What a text holds.
    pub fn as_text(&self) -> (text: Option<&str>)
        ensures
            match text {
                Some(held) => self@.as_text() == Some(held@),
                None => self@.as_text() is None,
            },
    {
        match self {
            Json::Text(s) => Some(s.as_str()),
            _ => None,
        }
    }

    /// What a text holds that is not empty.
    pub fn as_filled_text(&self) -> (text: Option<&str>)
        ensures
            match text {
                Some(held) => self@.as_filled_text() == Some(held@),
                None => self@.as_filled_text() is None,
            },
    {
        match self {
            Json::Text(s) => if s.as_str().is_empty() {
                None
            } else {
                Some(s.as_str())
            },
            _ => None,
        }
    }

    /// Whether the value is the given text.
    pub fn is_text(&self, text: &str) -> (yes: bool)
        ensures
            yes == (self@ == JsonView::Text(text@)),
    {
        match self {
            Json::Text(s) => same_text(s.as_str(), text),
            _ => false,
        }
    }

    /// A truth value.
    pub fn as_bool(&self) -> (truth: Option<bool>)
        ensures
            truth == self@.as_bool(),
    {
        match self {
            Json::Bool(b) => Some(*b),
            _ => None,
        }
    }

    /// A number that is an unsigned 64-bit integer.
    pub fn as_unsigned(&self) -> (number: Option<u64>)
        ensures
            number == self@.as_unsigned(),
    {
        match self {
            Json::Unsigned(n) => Some(*n),
            Json::Negative(n) => if *n < 0 {
                None
            } else {
                Some(*n as u64)
            },
            _ => None,
        }
    }

    /// Whether the value is null.
    pub fn is_null(&self) -> (yes: bool)
        ensures
            yes == (self@ is Null),
    {
        matches!(self, Json::Null)
    }

    /// Whether the value is an object.
    pub fn is_object(&self) -> (yes: bool)
        ensures
            yes == (self@ is Object),
    {
        matches!(self, Json::Object(_))
    }

    /// Whether the value is a number that is a signed 64-bit integer.
    pub fn is_signed(&self) -> (yes: bool)
        ensures
            yes == self@.is_signed(),
    {
        match self {
            Json::Unsigned(n) => *n <= i64::MAX as u64,
            Json::Negative(_) => true,
            _ => false,
        }
    }

    /// Whether the value can identify a request.
    pub fn is_id(&self) -> (yes: bool)
        ensures
            yes == self@.is_id(),
    {
        matches!(self, Json::Text(_) | Json::Unsigned(_) | Json::Negative(_))
    }

    /// Whether this value, which can identify a request, is the same as another.
    pub fn same_id(&self, other: &Json) -> (same: bool)
        requires
            self@.is_id(),
        ensures
            same == (self@ == other@),
    {
        match (self.as_text(), other.as_text()) {
            (Some(a), Some(b)) => same_text(a, b),
            (Some(_), None) => false,
            (None, Some(_)) => false,
            (None, None) => match (self.as_unsigned(), other.as_unsigned()) {
                (Some(a), Some(b)) => a == b,
                (Some(_), None) => false,
                (None, Some(_)) => false,
                (None, None) => match (self, other) {
                    (Json::Negative(a), Json::Negative(b)) => *a == *b,
                    _ => false,
                },
            },
        }
    }
}

} // verus!
