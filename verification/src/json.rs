//! JSON documents as the bridge reads and writes them: one object whose
//! members are strings or integers. Reading and writing the text itself is
//! serde_json's work; what the bridge does with the members is its own.

use crate::text::str_equals;
use vstd::prelude::*;

verus! {

/// The value of one member of a JSON object, as far as the bridge reads it.
#[derive(Debug, PartialEq, Eq)]
pub enum JsonScalar {
    /// A JSON string.
    Text(String),
    /// An integer that fits a signed 64-bit integer.
    Integer(i64),
    /// An integer above the signed 64-bit range.
    Large(u64),
    /// Anything else: null, a boolean, a fraction, an array or an object.
    Other,
}

/// What a [`JsonScalar`] holds, as a mathematical value.
pub enum JsonValue {
    Text(Seq<char>),
    Integer(i64),
    Large(u64),
    Other,
}

impl View for JsonScalar {
    type V = JsonValue;

    open spec fn view(&self) -> JsonValue {
        match *self {
            JsonScalar::Text(text) => JsonValue::Text(text@),
            JsonScalar::Integer(value) => JsonValue::Integer(value),
            JsonScalar::Large(value) => JsonValue::Large(value),
            JsonScalar::Other => JsonValue::Other,
        }
    }
}

/// One member of a JSON object: its key and its value.
#[derive(Debug, PartialEq, Eq)]
pub struct JsonMember {
    pub key: String,
    pub value: JsonScalar,
}

impl View for JsonMember {
    type V = (Seq<char>, JsonValue);

    open spec fn view(&self) -> (Seq<char>, JsonValue) {
        (self.key@, self.value@)
    }
}

/// The members of an object, each as its key and its value.
pub open spec fn members_view(members: Seq<JsonMember>) -> Seq<(Seq<char>, JsonValue)> {
    members.map_values(|member: JsonMember| member@)
}

/// The members of the JSON object that `text` writes, or `None` where `text`
/// is not one JSON object: any other JSON value, `null` included, text that is
/// no JSON, and an object with anything but whitespace after it. The members
/// come in the order in which serde_json's map hands them out, which is the
/// order of their keys. Where the text writes a key more than once, the map
/// holds that key once, with the value written last.
pub uninterp spec fn json_object_members(text: Seq<char>) -> Option<Seq<(Seq<char>, JsonValue)>>;

/// The text that serde_json writes for the object made of `members`, inserted
/// in this order.
pub uninterp spec fn json_object_text(members: Seq<(Seq<char>, JsonValue)>) -> Seq<char>;

/// `serde_json::from_str` into a `serde_json::Map`: parses `text`, which must
/// be one JSON object and nothing after it, and hands out its members. Text
/// that begins with anything but `{` after its whitespace is refused, and a
/// key that is written more than once is kept once, with its last value. A
/// string member comes as `Text`, a number by `Number::as_i64` and
/// `Number::as_u64` as `Integer` or `Large`, every other value as `Other`. The
/// result depends on `text` alone.
#[verifier::external_body]
pub(crate) fn read_object(text: &str) -> (members: Option<Vec<JsonMember>>)
    ensures
        match members {
            Some(found) => json_object_members(text@) == Some(members_view(found@)),
            None => json_object_members(text@) is None,
        },
{
    let map = serde_json::from_str::<serde_json::Map<String, serde_json::Value>>(text).ok()?;
    let mut members = Vec::new();
    for (key, value) in map {
        let value = match value {
            serde_json::Value::String(text) => JsonScalar::Text(text),
            serde_json::Value::Number(n) => match (n.as_i64(), n.as_u64()) {
                (Some(i), _) => JsonScalar::Integer(i),
                (None, Some(u)) => JsonScalar::Large(u),
                _ => JsonScalar::Other,
            },
            _ => JsonScalar::Other,
        };
        members.push(JsonMember { key, value });
    }
    Some(members)
}

/// `serde_json::Map::insert` for each member in turn, then the `to_string` of
/// the `serde_json::Value::Object` made of the map: the compact JSON text of
/// the object. `Other` is written as null. The result depends on `members`
/// alone.
#[verifier::external_body]
pub(crate) fn write_object(members: &Vec<JsonMember>) -> (text: String)
    ensures
        text@ == json_object_text(members_view(members@)),
{
    let mut map = serde_json::Map::new();
    for member in members.iter() {
        let value = match &member.value {
            JsonScalar::Text(text) => serde_json::Value::String(text.clone()),
            JsonScalar::Integer(i) => serde_json::Value::from(*i),
            JsonScalar::Large(u) => serde_json::Value::from(*u),
            JsonScalar::Other => serde_json::Value::Null,
        };
        map.insert(member.key.clone(), value);
    }
    serde_json::Value::Object(map).to_string()
}

/// The value of the first member of `members` whose key is `key`.
pub open spec fn member_value(members: Seq<(Seq<char>, JsonValue)>, key: Seq<char>) -> Option<
    JsonValue,
>
    decreases members.len(),
{
    if members.len() == 0 {
        None
    } else if members[0].0 == key {
        Some(members[0].1)
    } else {
        member_value(members.drop_first(), key)
    }
}

/// The string under `key`, if the first member of that key is a string.
pub open spec fn text_member(members: Seq<(Seq<char>, JsonValue)>, key: Seq<char>) -> Option<
    Seq<char>,
> {
    match member_value(members, key) {
        Some(JsonValue::Text(text)) => Some(text),
        _ => None,
    }
}

/// The integer under `key`, if the first member of that key is an integer
/// that fits 32 bits with a sign.
pub open spec fn i32_member(members: Seq<(Seq<char>, JsonValue)>, key: Seq<char>) -> Option<i32> {
    match member_value(members, key) {
        Some(JsonValue::Integer(value)) if i32::MIN <= value <= i32::MAX => Some(value as i32),
        _ => None,
    }
}

/// Finds the first member of `members` whose key is `key`.
pub fn find_member<'a>(members: &'a Vec<JsonMember>, key: &str) -> (value: Option<&'a JsonScalar>)
    ensures
        match value {
            Some(found) => member_value(members_view(members@), key@) == Some(found@),
            None => member_value(members_view(members@), key@) is None,
        },
{
    let ghost all = members_view(members@);
    assert(all.skip(0) =~= all);
    let mut i: usize = 0;
    while i < members.len()
        invariant
            i <= members@.len(),
            all == members_view(members@),
            member_value(all, key@) == member_value(all.skip(i as int), key@),
        decreases members.len() - i,
    {
        let ghost rest = all.skip(i as int);
        assert(rest[0] == members@[i as int]@);
        assert(rest.drop_first() =~= all.skip(i + 1));
        if str_equals(members[i].key.as_str(), key) {
            return Some(&members[i].value);
        }
        i = i + 1;
    }
    assert(all.skip(i as int).len() == 0);
    None
}

/// Finds the string under `key`.
pub fn find_text<'a>(members: &'a Vec<JsonMember>, key: &str) -> (text: Option<&'a str>)
    ensures
        match text {
            Some(found) => text_member(members_view(members@), key@) == Some(found@),
            None => text_member(members_view(members@), key@) is None,
        },
{
    match find_member(members, key) {
        Some(JsonScalar::Text(text)) => Some(text.as_str()),
        _ => None,
    }
}

/// Finds the integer under `key`, where it fits 32 bits with a sign.
pub fn find_i32(members: &Vec<JsonMember>, key: &str) -> (value: Option<i32>)
    ensures
        value == i32_member(members_view(members@), key@),
{
    match find_member(members, key) {
        Some(JsonScalar::Integer(value)) => {
            if *value >= -0x8000_0000 && *value <= 0x7fff_ffff {
                Some(*value as i32)
            } else {
                None
            }
        },
        _ => None,
    }
}

} // verus!
