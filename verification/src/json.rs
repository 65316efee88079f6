//! JSON documents, parsed and printed by `serde_json`.
//!
//! A `serde_json::Value` is opaque to the verifier. What the library reads
//! from one, and what it builds into one, is described by [`JsonModel`]; the
//! functions below are the only places where `serde_json` is called, and
//! their contracts are believed, not proved.

use vstd::prelude::*;

verus! {

/// `serde_json::Value`: a JSON value, carried through without a look
/// inside.
#[verifier::external_type_specification]
#[verifier::external_body]
pub struct ExValue(serde_json::Value);

/// The part of a JSON value that the library distinguishes.
pub enum JsonModel {
    /// A JSON string.
    Text(Seq<char>),
    /// A JSON number that is an integer in the range of `i64`.
    Integer(i64),
    /// A JSON object, by member name.
    Object(Map<Seq<char>, JsonModel>),
    /// Anything else: `null`, a boolean, any other number, an array.
    Other,
}

impl JsonModel {
    /// The member called `key`, if this is an object that has one.
    pub open spec fn member(self, key: Seq<char>) -> Option<JsonModel> {
        match self {
            JsonModel::Object(members) => if members.contains_key(key) {
                Some(members[key])
            } else {
                None
            },
            _ => None,
        }
    }

    /// A string or an integer.
    pub open spec fn is_scalar(self) -> bool {
        self is Text || self is Integer
    }

    /// An object all of whose members are scalars.
    pub open spec fn is_record(self) -> bool {
        self matches JsonModel::Object(members) && forall|key: Seq<char>| #[trigger]
            members.contains_key(key) ==> members[key].is_scalar()
    }

    /// An object all of whose members are scalars or records.
    pub open spec fn is_document(self) -> bool {
        self matches JsonModel::Object(members) && forall|key: Seq<char>| #[trigger]
            members.contains_key(key) ==> members[key].is_scalar() || members[key].is_record()
    }

    /// This object with `member` under `key`, replacing any earlier one.
    pub open spec fn with(self, key: Seq<char>, member: JsonModel) -> JsonModel {
        match self {
            JsonModel::Object(members) => JsonModel::Object(members.insert(key, member)),
            _ => self,
        }
    }

    /// The object without members.
    pub open spec fn empty_object() -> JsonModel {
        JsonModel::Object(Map::empty())
    }
}

/// What a `serde_json::Value` holds.
pub uninterp spec fn json_model(value: serde_json::Value) -> JsonModel;

/// What `serde_json::from_str` makes of a text: the value it parses to, or
/// `None` where it reports an error.
pub uninterp spec fn json_parsed(text: Seq<char>) -> Option<JsonModel>;

/// `serde_json::from_str` at type `Value`: the value that the text parses to,
/// `None` where the parser reports an error.
#[verifier::external_body]
pub(crate) fn parse(text: &str) -> (value: Option<serde_json::Value>)
    ensures
        value matches Some(v) ==> json_parsed(text@) == Some(json_model(v)),
        value is None ==> json_parsed(text@) is None,
{
    match serde_json::from_str::<serde_json::Value>(text) {
        Ok(value) => Some(value),
        Err(_) => None,
    }
}

/// `Value::to_string`: the compact JSON text of a value. Parsing that text
/// again gives a value with the same model; this is claimed of documents
/// only, which hold no floating-point number and nest two levels at most.
#[verifier::external_body]
pub(crate) fn render(value: &serde_json::Value) -> (text: String)
    ensures
        json_model(*value).is_document() ==> json_parsed(text@) == Some(json_model(*value)),
{
    value.to_string()
}

/// `Value::get` with a string index: a copy of the member called `key`,
/// `None` where the value is no object or has no such member.
#[verifier::external_body]
pub(crate) fn member(value: &serde_json::Value, key: &str) -> (found: Option<serde_json::Value>)
    ensures
        found matches Some(m) ==> json_model(*value).member(key@) == Some(json_model(m)),
        found is None ==> json_model(*value).member(key@) is None,
{
    match value.get(key) {
        Some(member) => Some(member.clone()),
        None => None,
    }
}

/// `Value::as_str`: the characters of a JSON string, `None` for any other
/// value.
#[verifier::external_body]
pub(crate) fn as_text(value: &serde_json::Value) -> (text: Option<String>)
    ensures
        text matches Some(t) ==> json_model(*value) == JsonModel::Text(t@),
        text is None ==> !(json_model(*value) is Text),
{
    match value.as_str() {
        Some(text) => Some(text.to_owned()),
        None => None,
    }
}

/// `Value::as_i64`: the number, where the value is an integer that fits in
/// `i64`; `None` for any other value.
#[verifier::external_body]
pub(crate) fn as_integer(value: &serde_json::Value) -> (number: Option<i64>)
    ensures
        number matches Some(n) ==> json_model(*value) == JsonModel::Integer(n),
        number is None ==> !(json_model(*value) is Integer),
{
    value.as_i64()
}

/// `Value::Object` of `Map::new`: the object without members.
#[verifier::external_body]
pub(crate) fn object() -> (value: serde_json::Value)
    ensures
        json_model(value) == JsonModel::empty_object(),
{
    serde_json::Value::Object(serde_json::Map::new())
}

/// `Value::String`: the JSON string with the characters of `text`.
#[verifier::external_body]
pub(crate) fn string(characters: &str) -> (value: serde_json::Value)
    ensures
        json_model(value) == JsonModel::Text(characters@),
{
    serde_json::Value::String(characters.to_owned())
}

/// `Value::from` at `i64`: the JSON number `number`.
#[verifier::external_body]
pub(crate) fn integer(number: i64) -> (value: serde_json::Value)
    ensures
        json_model(value) == JsonModel::Integer(number),
{
    serde_json::Value::from(number)
}

/// `Map::insert` on the map of an object: afterwards the object has `member`
/// under `key`, in place of any earlier member of that name, and its other
/// members as before. A value that is no object is left as it is.
#[verifier::external_body]
pub(crate) fn insert(value: &mut serde_json::Value, key: &str, member: serde_json::Value)
    ensures
        json_model(*final(value)) == json_model(*old(value)).with(key@, json_model(member)),
{
    if let serde_json::Value::Object(members) = value {
        members.insert(key.to_owned(), member);
    }
}

} // verus!
