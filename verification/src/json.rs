//! JSON objects, as far as the adapter reads them: the members of the
//! top-level object, each a text or the kind of what it is instead.

use vstd::prelude::*;
use serde_json::Value;
use crate::text::str_eq;

verus! {

/// A member's value. Of a number, an array or an object only the kind is
/// kept.
#[derive(Clone, Debug, PartialEq, Eq)]
pub enum JsonValue {
    Null,
    Bool(bool),
    Number,
    Text(String),
    Array,
    Object,
}

/// A member's value, with a text as a sequence of characters.
pub enum JsonShape {
    Null,
    Bool(bool),
    Number,
    Text(Seq<char>),
    Array,
    Object,
}

impl View for JsonValue {
    type V = JsonShape;

    open spec fn view(&self) -> JsonShape {
        match self {
            JsonValue::Null => JsonShape::Null,
            JsonValue::Bool(flag) => JsonShape::Bool(*flag),
            JsonValue::Number => JsonShape::Number,
            JsonValue::Text(text) => JsonShape::Text(text@),
            JsonValue::Array => JsonShape::Array,
            JsonValue::Object => JsonShape::Object,
        }
    }
}

/// The members of the JSON object that `body` holds, by name, or `None`
/// where `body` is no JSON document or its top-level value is no object.
pub uninterp spec fn json_object(body: Seq<u8>) -> Option<Map<Seq<char>, JsonShape>>;

/// `entries` holds what `members` maps: every entry is a member, and every
/// member has an entry.
pub open spec fn lists(entries: Seq<(String, JsonValue)>, members: Map<Seq<char>, JsonShape>) -> bool {
    &&& forall|i: int|
        0 <= i < entries.len() ==> members.contains_key(#[trigger] entries[i].0@)
            && members[entries[i].0@] == entries[i].1@
    &&& forall|name: Seq<char>| #[trigger]
        members.contains_key(name) ==> exists|i: int|
            0 <= i < entries.len() && entries[i].0@ == name
}

/// Reads `body` as a JSON object and lists its members.
///
/// Trusted: calls `serde_json::from_slice` for a `serde_json::Map`, which
/// fails unless `body` is one JSON document whose top-level value is an
/// object, and then walks the map, which yields each member once. The
/// parser reads nothing but its argument, so the object is a function of
/// the bytes: `json_object`. The order of the entries is left open.
#[verifier::external_body]
pub(crate) fn parse_object(body: &[u8]) -> (parsed: Option<Vec<(String, JsonValue)>>)
    ensures
        match json_object(body@) {
            Some(members) => parsed matches Some(entries) && lists(entries@, members),
            None => parsed is None,
        },
{
    let members: serde_json::Map<String, Value> = serde_json::from_slice(body).ok()?;
    Some(members.into_iter().map(|(name, value)| (name, match value {
        Value::Null => JsonValue::Null,
        Value::Bool(flag) => JsonValue::Bool(flag),
        Value::Number(_) => JsonValue::Number,
        Value::String(text) => JsonValue::Text(text),
        Value::Array(_) => JsonValue::Array,
        Value::Object(_) => JsonValue::Object,
    })).collect())
}

/// The member of `members` called `name`, if there is one.
pub open spec fn member(members: Map<Seq<char>, JsonShape>, name: Seq<char>) -> Option<JsonShape> {
    if members.contains_key(name) {
        Some(members[name])
    } else {
        None
    }
}

/// Looks a member up by name.
pub(crate) fn find_member<'a>(
    entries: &'a Vec<(String, JsonValue)>,
    name: &str,
    Ghost(members): Ghost<Map<Seq<char>, JsonShape>>,
) -> (found: Option<&'a JsonValue>)
    requires
        lists(entries@, members),
    ensures
        match member(members, name@) {
            Some(shape) => found matches Some(value) && value@ == shape,
            None => found is None,
        },
{
    let mut i: usize = 0;
    while i < entries.len()
        invariant
            i <= entries.len(),
            lists(entries@, members),
            forall|j: int| 0 <= j < i ==> entries@[j].0@ != name@,
        decreases entries.len() - i,
    {
        if str_eq(entries[i].0.as_str(), name) {
            assert(members.contains_key(entries@[i as int].0@));
            return Some(&entries[i].1);
        }
        i = i + 1;
    }
    None
}

} // verus!
