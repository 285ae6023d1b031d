//! JSON values, as far as the envelopes need them.
//!
//! The values themselves are `serde_json::Value`s, which the verifier cannot
//! look into. [`Json`] is the tree that such a value stands for, and the
//! functions at the end of this module are the only places where `serde_json`
//! is called. Their contracts are believed, not proved: each says in its
//! comment what it takes for granted.

use vstd::prelude::*;

verus! {

/// A JSON value as a mathematical tree.
///
/// An object is a map from its keys to their values: it has no order and no
/// key twice. A number is kept as the text that `serde_json` prints for it.
pub enum Json {
    Null,
    Bool(bool),
    Number(Seq<char>),
    Str(Seq<char>),
    Array(Seq<Json>),
    Object(Map<Seq<char>, Json>),
}

/// Declares `serde_json::Value`, so that signatures can hold it. Nothing is
/// known of what is inside one but through [`json_of`].
#[verifier::external_type_specification]
#[verifier::external_body]
pub struct ExValue(serde_json::Value);

/// Declares `serde_json::Map`, the members of an object. Nothing is known of
/// what is inside one but through [`members_of`].
#[verifier::external_type_specification]
#[verifier::external_body]
#[verifier::reject_recursive_types(K)]
#[verifier::reject_recursive_types(V)]
pub struct ExMap<K, V>(serde_json::Map<K, V>);

/// Declares `serde_json::Error`. It is carried and dropped: nothing is read
/// from it.
#[verifier::external_type_specification]
#[verifier::external_body]
pub struct ExError(serde_json::Error);

/// The tree that a `serde_json::Value` stands for.
pub uninterp spec fn json_of(v: serde_json::Value) -> Json;

/// The members that a `serde_json::Map` holds.
pub uninterp spec fn members_of(m: serde_json::Map<String, serde_json::Value>) -> Map<
    Seq<char>,
    Json,
>;

/// The bytes that `serde_json::to_vec` writes for a value that stands for the
/// given tree, `None` where it reports an error.
pub uninterp spec fn json_text(j: Json) -> Option<Seq<u8>>;

/// The tree that `serde_json::from_slice` reads from the given bytes, `None`
/// where it reports an error.
pub uninterp spec fn json_parse(text: Seq<u8>) -> Option<Json>;

/// The trees of a sequence of values, one for one.
pub open spec fn jsons_of(items: Seq<serde_json::Value>) -> Seq<Json> {
    items.map_values(|x: serde_json::Value| json_of(x))
}

/// The members of the empty object.
pub open spec fn no_members() -> Map<Seq<char>, Json> {
    Map::empty()
}

/// The members `m`, with `key` set to `value` where there is one.
pub open spec fn with_member(m: Map<Seq<char>, Json>, key: Seq<char>, value: Option<Json>) -> Map<
    Seq<char>,
    Json,
> {
    match value {
        Some(j) => m.insert(key, j),
        None => m,
    }
}

/// The member of `m` under `key`, where there is one.
pub open spec fn member(m: Map<Seq<char>, Json>, key: Seq<char>) -> Option<Json> {
    if m.contains_key(key) {
        Some(m[key])
    } else {
        None
    }
}

/// Calls `serde_json::from_slice` for a `Value`. Believed: what it returns
/// depends on the bytes alone, which [`json_parse`] names.
#[verifier::external_body]
pub(crate) fn parse(text: &[u8]) -> (r: Result<serde_json::Value, serde_json::Error>)
    ensures
        match r {
            Ok(v) => json_parse(text@) == Some(json_of(v)),
            Err(_) => json_parse(text@) is None,
        },
{
    serde_json::from_slice::<serde_json::Value>(text)
}

/// Calls `serde_json::to_vec` on a `Value`. Believed: what it returns
/// depends on the value's tree alone, which [`json_text`] names. (An object
/// is written in the order of its keys, whatever order they were inserted
/// in.) Nothing is claimed about when it succeeds.
#[verifier::external_body]
pub(crate) fn render(v: &serde_json::Value) -> (r: Result<Vec<u8>, serde_json::Error>)
    ensures
        match r {
            Ok(text) => json_text(json_of(*v)) == Some(text@),
            Err(_) => json_text(json_of(*v)) is None,
        },
{
    serde_json::to_vec(v)
}

/// Builds `serde_json::Value::String`. Believed: it stands for that string.
#[verifier::external_body]
pub(crate) fn string_value(s: String) -> (v: serde_json::Value)
    ensures
        json_of(v) == Json::Str(s@),
{
    serde_json::Value::String(s)
}

/// Builds `serde_json::Value::Bool`. Believed: it stands for that boolean.
#[verifier::external_body]
pub(crate) fn bool_value(b: bool) -> (v: serde_json::Value)
    ensures
        json_of(v) == Json::Bool(b),
{
    serde_json::Value::Bool(b)
}

/// Builds `serde_json::Value::Array`. Believed: it stands for the array of
/// the items' trees, in their order.
#[verifier::external_body]
pub(crate) fn array_value(items: Vec<serde_json::Value>) -> (v: serde_json::Value)
    ensures
        json_of(v) == Json::Array(jsons_of(items@)),
{
    serde_json::Value::Array(items)
}

/// Builds `serde_json::Value::Object`. Believed: it stands for the object
/// with the map's members.
#[verifier::external_body]
pub(crate) fn object_value(m: serde_json::Map<String, serde_json::Value>) -> (v: serde_json::Value)
    ensures
        json_of(v) == Json::Object(members_of(m)),
{
    serde_json::Value::Object(m)
}

/// Calls `serde_json::Map::new`. Believed: the new map has no member.
#[verifier::external_body]
pub(crate) fn new_members() -> (members: serde_json::Map<String, serde_json::Value>)
    ensures
        members_of(members) == no_members(),
{
    serde_json::Map::new()
}

/// Calls `serde_json::Map::insert` and drops what it returns. Believed: the
/// key then has the new value, whether or not it had one before, and no
/// other member changes.
#[verifier::external_body]
pub(crate) fn set_member(
    m: &mut serde_json::Map<String, serde_json::Value>,
    key: String,
    value: serde_json::Value,
)
    ensures
        members_of(*final(m)) == members_of(*old(m)).insert(key@, json_of(value)),
{
    m.insert(key, value);
}

/// Calls `serde_json::Value::as_object`. Believed: it returns the map of an
/// object, which has finitely many members, and `None` for any other value.
#[verifier::external_body]
pub(crate) fn as_object(v: &serde_json::Value) -> (r: Option<
    &serde_json::Map<String, serde_json::Value>,
>)
    ensures
        match r {
            Some(m) => json_of(*v) == Json::Object(members_of(*m)) && members_of(*m).dom().finite(),
            None => !(json_of(*v) is Object),
        },
{
    v.as_object()
}

/// Calls `serde_json::Value::as_array`. Believed: it returns the items of an
/// array, in their order, and `None` for any other value.
#[verifier::external_body]
pub(crate) fn as_array(v: &serde_json::Value) -> (r: Option<&Vec<serde_json::Value>>)
    ensures
        match r {
            Some(items) => json_of(*v) == Json::Array(jsons_of(items@)),
            None => !(json_of(*v) is Array),
        },
{
    v.as_array()
}

/// Calls `serde_json::Value::as_str`. Believed: it returns the text of a
/// string, and `None` for any other value.
#[verifier::external_body]
pub(crate) fn as_str(v: &serde_json::Value) -> (r: Option<&str>)
    ensures
        match r {
            Some(s) => json_of(*v) == Json::Str(s@),
            None => !(json_of(*v) is Str),
        },
{
    v.as_str()
}

/// Calls `serde_json::Value::as_bool`. Believed: it returns the value of a
/// boolean, and `None` for any other value.
#[verifier::external_body]
pub(crate) fn as_bool(v: &serde_json::Value) -> (r: Option<bool>)
    ensures
        match r {
            Some(b) => json_of(*v) == Json::Bool(b),
            None => !(json_of(*v) is Bool),
        },
{
    v.as_bool()
}

/// Calls `serde_json::Map::get`. Believed: it returns the value under the
/// key, and `None` where the map has no such key.
#[verifier::external_body]
pub(crate) fn get_member<'a>(
    m: &'a serde_json::Map<String, serde_json::Value>,
    key: &str,
) -> (r: Option<&'a serde_json::Value>)
    ensures
        match r {
            Some(x) => member(members_of(*m), key@) == Some(json_of(*x)),
            None => member(members_of(*m), key@) is None,
        },
{
    m.get(key)
}

/// Walks `serde_json::Map::keys` and copies each key. Believed: the keys
/// that come out are those of the map, all of them.
#[verifier::external_body]
pub(crate) fn member_keys(m: &serde_json::Map<String, serde_json::Value>) -> (keys: Vec<String>)
    ensures
        forall|i: int| 0 <= i < keys@.len() ==> members_of(*m).contains_key(#[trigger] keys@[i]@),
        forall|k: Seq<char>| #[trigger]
            members_of(*m).contains_key(k) ==> exists|i: int|
                0 <= i < keys@.len() && #[trigger] keys@[i]@ == k,
{
    m.keys().cloned().collect()
}

} // verus!
