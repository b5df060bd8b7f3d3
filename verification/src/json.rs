//! JSON documents: their mathematical model and the `serde_json` calls
//! through which the library reads, builds and prints them.

use serde_json::Value;
use vstd::prelude::*;

verus! {

/// A JSON number, in the three kinds that `serde_json` tells apart.
pub enum NumberModel {
    /// A non-negative integer below 2^64.
    Unsigned(u64),
    /// A negative integer from -2^63 on.
    Negative(i64),
    /// Any other number: one written with a fraction or an exponent, or an
    /// integer beyond the two kinds above. It is identified by the 64 bits
    /// of its binary form.
    Other(u64),
}

/// A JSON document as a mathematical value.
pub enum JsonModel {
    Null,
    Bool(bool),
    Number(NumberModel),
    Text(Seq<char>),
    Array(Seq<JsonModel>),
    Object(Map<Seq<char>, JsonModel>),
}

impl JsonModel {
    /// The member `key` of an object; `None` for a missing member and for a
    /// document that is no object.
    pub open spec fn field(self, key: Seq<char>) -> Option<JsonModel> {
        match self {
            JsonModel::Object(members) => if members.contains_key(key) {
                Some(members[key])
            } else {
                None
            },
            _ => None,
        }
    }

    /// The boolean that this document is, if it is one.
    pub open spec fn as_bool(self) -> Option<bool> {
        match self {
            JsonModel::Bool(b) => Some(b),
            _ => None,
        }
    }

    /// The number that this document is, if it is a non-negative integer
    /// below 2^64.
    pub open spec fn as_u64(self) -> Option<u64> {
        match self {
            JsonModel::Number(NumberModel::Unsigned(n)) => Some(n),
            _ => None,
        }
    }

    /// The string that this document is, if it is one.
    pub open spec fn as_text(self) -> Option<Seq<char>> {
        match self {
            JsonModel::Text(s) => Some(s),
            _ => None,
        }
    }

    /// The elements of the array that this document is, if it is one.
    pub open spec fn as_items(self) -> Option<Seq<JsonModel>> {
        match self {
            JsonModel::Array(items) => Some(items),
            _ => None,
        }
    }
}

/// The place in a text at which it stops being JSON.
#[derive(Clone, Copy, Debug, PartialEq, Eq, Structural)]
pub struct SyntaxFault {
    pub line: usize,
    pub column: usize,
}

/// `serde_json::Value`: the verifier sees nothing inside it; what it holds
/// is `json_model` of it.
#[verifier::external_type_specification]
#[verifier::external_body]
pub struct ExValue(serde_json::Value);

/// The document that a `serde_json::Value` holds.
pub uninterp spec fn json_model(v: Value) -> JsonModel;

/// What `serde_json::from_str` makes of a text: the document it denotes, or
/// the place of the first fault.
pub uninterp spec fn json_parse(text: Seq<char>) -> Result<JsonModel, SyntaxFault>;

/// The text that `serde_json::to_string_pretty` prints for a document.
pub uninterp spec fn json_pretty(doc: JsonModel) -> Seq<char>;

/// The documents held by a sequence of values.
pub open spec fn models_of(values: Seq<Value>) -> Seq<JsonModel> {
    values.map_values(|v: Value| json_model(v))
}

/// The keys of a list of key-value pairs, in order.
pub open spec fn keys_of(pairs: Seq<(String, Value)>) -> Seq<Seq<char>> {
    pairs.map_values(|pair: (String, Value)| pair.0@)
}

/// The members that a list of key-value pairs with distinct keys denotes.
pub open spec fn members_of(pairs: Seq<(String, Value)>) -> Map<Seq<char>, JsonModel>
    decreases pairs.len(),
{
    if pairs.len() == 0 {
        Map::empty()
    } else {
        members_of(pairs.drop_last()).insert(pairs.last().0@, json_model(pairs.last().1))
    }
}

/// `serde_json::from_str` at the type `Value`: the result is the named
/// parse of the text, a fault being given by its line and column.
#[verifier::external_body]
pub(crate) fn parse_text(text: &str) -> (r: Result<Value, SyntaxFault>)
    ensures
        match r {
            Ok(v) => json_parse(text@) == Ok::<JsonModel, SyntaxFault>(json_model(v)),
            Err(fault) => json_parse(text@) == Err::<JsonModel, SyntaxFault>(fault),
        },
{
    match serde_json::from_str::<Value>(text) {
        Ok(v) => Ok(v),
        Err(e) => Err(SyntaxFault { line: e.line(), column: e.column() }),
    }
}

/// `Value::get` with a string key: the member of that name when the value is
/// an object that has one, else `None`.
#[verifier::external_body]
pub(crate) fn value_field<'a>(v: &'a Value, key: &str) -> (r: Option<&'a Value>)
    ensures
        match r {
            Some(member) => json_model(*v).field(key@) == Some(json_model(*member)),
            None => json_model(*v).field(key@) is None,
        },
{
    v.get(key)
}

/// `Value::as_bool`: the boolean when the value is one.
pub assume_specification[ Value::as_bool ](v: &Value) -> (r: Option<bool>)
    ensures
        r == json_model(*v).as_bool(),
;

/// `Value::as_u64`: the integer when the value is a non-negative integer
/// below 2^64.
pub assume_specification[ Value::as_u64 ](v: &Value) -> (r: Option<u64>)
    ensures
        r == json_model(*v).as_u64(),
;

/// `Value::as_str`: the text when the value is a string.
pub assume_specification<'a>[ Value::as_str ](v: &'a Value) -> (r: Option<&'a str>)
    ensures
        match r {
            Some(s) => json_model(*v).as_text() == Some(s@),
            None => json_model(*v).as_text() is None,
        },
;

/// `Value::as_array`: the elements when the value is an array.
pub assume_specification<'a>[ Value::as_array ](v: &'a Value) -> (r: Option<&'a Vec<Value>>)
    ensures
        match r {
            Some(items) => json_model(*v).as_items() == Some(models_of(items@)),
            None => json_model(*v).as_items() is None,
        },
;

/// The variant `Value::Bool`.
#[verifier::external_body]
pub(crate) fn value_of_bool(b: bool) -> (v: Value)
    ensures
        json_model(v) == JsonModel::Bool(b),
{
    Value::Bool(b)
}

/// `Value::from` at `u64`: a non-negative integer.
#[verifier::external_body]
pub(crate) fn value_of_u64(n: u64) -> (v: Value)
    ensures
        json_model(v) == JsonModel::Number(NumberModel::Unsigned(n)),
{
    Value::from(n)
}

/// The variant `Value::String`.
#[verifier::external_body]
pub(crate) fn value_of_text(s: String) -> (v: Value)
    ensures
        json_model(v) == JsonModel::Text(s@),
{
    Value::String(s)
}

/// The variant `Value::Array`.
#[verifier::external_body]
pub(crate) fn value_of_items(items: Vec<Value>) -> (v: Value)
    ensures
        json_model(v) == JsonModel::Array(models_of(items@)),
{
    Value::Array(items)
}

/// The variant `Value::Object`, its map collected from key-value pairs with
/// distinct keys: the object has exactly these members.
#[verifier::external_body]
pub(crate) fn value_of_members(pairs: Vec<(String, Value)>) -> (v: Value)
    requires
        keys_of(pairs@).no_duplicates(),
    ensures
        json_model(v) == JsonModel::Object(members_of(pairs@)),
{
    Value::Object(pairs.into_iter().collect())
}

/// `serde_json::to_string_pretty` at the type `Value`. Printing a `Value`
/// into memory has no failing case: its keys are strings and its numbers are
/// finite.
#[verifier::external_body]
pub(crate) fn pretty_text(v: &Value) -> (r: String)
    ensures
        r@ == json_pretty(json_model(*v)),
{
    serde_json::to_string_pretty(v).unwrap_or_default()
}

/// Adds a member to a list of key-value pairs.
pub(crate) fn push_member(pairs: &mut Vec<(String, Value)>, key: &str, value: Value)
    ensures
        keys_of(final(pairs)@) == keys_of(old(pairs)@).push(key@),
        members_of(final(pairs)@) == members_of(old(pairs)@).insert(key@, json_model(value)),
{
    pairs.push((String::from_str(key), value));
    assert(pairs@.drop_last() =~= old(pairs)@);
    assert(keys_of(pairs@) =~= keys_of(old(pairs)@).push(key@));
}

} // verus!
