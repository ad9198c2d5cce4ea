//! JSON values of serde_json, as option builders and test tokens hold them:
//! opaque values built and taken apart by serde_json, named by what they
//! hold.
use vstd::prelude::*;

verus! {

/// A JSON value of serde_json.
#[verifier::external_type_specification]
#[verifier::external_body]
pub struct ExJsonValue(serde_json::Value);

/// The JSON string holding `text`.
pub uninterp spec fn json_string_value(text: Seq<char>) -> serde_json::Value;

/// The JSON boolean `b`.
pub uninterp spec fn json_bool_value(b: bool) -> serde_json::Value;

/// The JSON number `n`.
pub uninterp spec fn json_number_value(n: u64) -> serde_json::Value;

/// The JSON array of the strings `items`, in order.
pub uninterp spec fn json_string_array(items: Seq<Seq<char>>) -> serde_json::Value;

/// The JSON object with exactly the members `members`.
pub uninterp spec fn json_object(members: Map<Seq<char>, serde_json::Value>) -> serde_json::Value;

/// The members a list of name/value pairs gives an object when inserted in
/// order: a later pair of a name replaces an earlier one.
pub open spec fn members_map(pairs: Seq<(Seq<char>, serde_json::Value)>) -> Map<Seq<char>, serde_json::Value>
    decreases pairs.len(),
{
    if pairs.len() == 0 {
        Map::empty()
    } else {
        members_map(pairs.drop_last()).insert(pairs.last().0, pairs.last().1)
    }
}

/// The pairs of a list of owned name/value pairs.
pub open spec fn pair_views(pairs: Seq<(String, serde_json::Value)>) -> Seq<(Seq<char>, serde_json::Value)> {
    pairs.map_values(|p: (String, serde_json::Value)| (p.0@, p.1))
}

/// The members of `value` when it is a JSON object.
pub open spec fn object_members_of(value: serde_json::Value) -> Option<Map<Seq<char>, serde_json::Value>> {
    if exists|m: Map<Seq<char>, serde_json::Value>| json_object(m) == value {
        Some(choose|m: Map<Seq<char>, serde_json::Value>| json_object(m) == value)
    } else {
        None
    }
}

/// The member `name` of `value`, when `value` is a JSON object holding one.
pub open spec fn json_member(value: serde_json::Value, name: Seq<char>) -> Option<serde_json::Value> {
    match object_members_of(value) {
        Some(m) => if m.contains_key(name) {
            Some(m[name])
        } else {
            None
        },
        None => None,
    }
}

/// The text of `value`, when it is a JSON string.
pub open spec fn json_text(value: serde_json::Value) -> Option<Seq<char>> {
    if exists|t: Seq<char>| json_string_value(t) == value {
        Some(choose|t: Seq<char>| json_string_value(t) == value)
    } else {
        None
    }
}

/// The text of the member `name` of `value`, when that member is a JSON
/// string.
pub open spec fn json_member_text(value: serde_json::Value, name: Seq<char>) -> Option<Seq<char>> {
    match json_member(value, name) {
        Some(v) => json_text(v),
        None => None,
    }
}

/// `Value::String`: the JSON string holding `text`.
#[verifier::external_body]
pub(crate) fn string_value(text: &str) -> (r: serde_json::Value)
    ensures
        r == json_string_value(text@),
{
    serde_json::Value::String(text.to_owned())
}

/// `Value::Bool`: the JSON boolean `b`.
#[verifier::external_body]
pub(crate) fn bool_value(b: bool) -> (r: serde_json::Value)
    ensures
        r == json_bool_value(b),
{
    serde_json::Value::Bool(b)
}

/// `Value::from(u64)`: the JSON number `n`.
#[verifier::external_body]
pub(crate) fn number_value(n: u64) -> (r: serde_json::Value)
    ensures
        r == json_number_value(n),
{
    serde_json::Value::from(n)
}

/// `Value::from(Vec<&str>)`: the JSON array of the strings `items`.
#[verifier::external_body]
pub(crate) fn string_array_value(items: &[&str]) -> (r: serde_json::Value)
    ensures
        r == json_string_array(items@.map_values(|s: &str| s@)),
{
    serde_json::Value::from(items.to_vec())
}

/// `Value::Object` collected from name/value pairs: serde_json's map
/// inserts them in order, so a later pair of a name replaces an earlier one.
#[verifier::external_body]
pub(crate) fn object_value(pairs: Vec<(String, serde_json::Value)>) -> (r: serde_json::Value)
    ensures
        r == json_object(members_map(pair_views(pairs@))),
{
    serde_json::Value::Object(pairs.into_iter().collect())
}

/// The members of a JSON object, each name once, or the value itself when
/// it is not an object. An object is the object of its members, and of no
/// other members; a value handed back is no object at all.
#[verifier::external_body]
pub(crate) fn object_pairs(value: serde_json::Value) -> (r: Result<Vec<(String, serde_json::Value)>, serde_json::Value>)
    ensures
        match r {
            Ok(pairs) => {
                &&& value == json_object(members_map(pair_views(pairs@)))
                &&& forall|m: Map<Seq<char>, serde_json::Value>| json_object(m) == value ==> m == members_map(
                    pair_views(pairs@),
                )
            },
            Err(other) => {
                &&& other == value
                &&& forall|m: Map<Seq<char>, serde_json::Value>| json_object(m) != value
            },
        },
{
    match value {
        serde_json::Value::Object(map) => Ok(map.into_iter().collect()),
        other => Err(other),
    }
}

/// `Value::get` with a member name: the member of that name when `value`
/// is an object holding one; nothing for any other value.
#[verifier::external_body]
pub(crate) fn member<'a>(value: &'a serde_json::Value, name: &str) -> (r: Option<&'a serde_json::Value>)
    ensures
        forall|m: Map<Seq<char>, serde_json::Value>| #[trigger]
            json_object(m) == *value ==> match r {
                Some(v) => m.contains_key(name@) && *v == m[name@],
                None => !m.contains_key(name@),
            },
        (forall|m: Map<Seq<char>, serde_json::Value>| json_object(m) != *value) ==> r is None,
{
    value.get(name)
}

/// `Value::as_str`: the text of a JSON string, nothing for any other value.
#[verifier::external_body]
pub(crate) fn text_of(value: &serde_json::Value) -> (r: Option<&str>)
    ensures
        match r {
            Some(s) => forall|t: Seq<char>| #[trigger] json_string_value(t) == *value <==> t == s@,
            None => forall|t: Seq<char>| json_string_value(t) != *value,
        },
{
    value.as_str()
}

/// `Value == Value`: serde_json's equality of JSON values. A value compares
/// equal to itself; when two different values compare equal is not stated.
#[verifier::external_body]
pub(crate) fn values_equal(a: &serde_json::Value, b: &serde_json::Value) -> (r: bool)
    ensures
        *a == *b ==> r,
{
    a == b
}

/// `Value::clone`: an equal copy of a JSON value.
#[verifier::external_body]
pub(crate) fn clone_value(value: &serde_json::Value) -> (r: serde_json::Value)
    ensures
        r == *value,
{
    value.clone()
}

} // verus!
