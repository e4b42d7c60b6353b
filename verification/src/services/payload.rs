use vstd::prelude::*;
use crate::schemas::auth_schemas::text_view;

verus! {

/// `serde_json::Value`, one JSON value. It occurs only as what an object's
/// members hold.
#[verifier::external_type_specification]
#[verifier::external_body]
pub struct ExJsonValue(serde_json::Value);

/// `serde_json::Map`, a JSON object: the payload of a token. What it holds
/// is known through the four functions below.
#[verifier::external_type_specification]
#[verifier::external_body]
#[verifier::reject_recursive_types(K)]
#[verifier::reject_recursive_types(V)]
pub struct ExJsonMap<K, V>(serde_json::Map<K, V>);

/// The members of a JSON object that hold an integer in the range of `i64`.
pub uninterp spec fn json_ints(object: serde_json::Map<String, serde_json::Value>) -> Map<
    Seq<char>,
    i64,
>;

/// The members of a JSON object that hold `true` or `false`.
pub uninterp spec fn json_bools(object: serde_json::Map<String, serde_json::Value>) -> Map<
    Seq<char>,
    bool,
>;

/// The members of a JSON object that hold a string.
pub uninterp spec fn json_texts(object: serde_json::Map<String, serde_json::Value>) -> Map<
    Seq<char>,
    Seq<char>,
>;

/// For each member of a JSON object, whether it holds `null`.
pub uninterp spec fn json_nulls(object: serde_json::Map<String, serde_json::Value>) -> Map<
    Seq<char>,
    bool,
>;

/// What a map holds under a key, if anything.
pub open spec fn lookup<V>(members: Map<Seq<char>, V>, key: Seq<char>) -> Option<V> {
    if members.dom().contains(key) {
        Some(members[key])
    } else {
        None
    }
}

/// Whether an object has a member `key` that holds something other than
/// `null`.
pub open spec fn is_set(object: serde_json::Map<String, serde_json::Value>, key: Seq<char>) -> bool {
    lookup(json_nulls(object), key) == Some(false)
}

/// Whether an object has no members at all.
pub open spec fn has_no_members(object: serde_json::Map<String, serde_json::Value>) -> bool {
    &&& json_ints(object) == Map::<Seq<char>, i64>::empty()
    &&& json_bools(object) == Map::<Seq<char>, bool>::empty()
    &&& json_texts(object) == Map::<Seq<char>, Seq<char>>::empty()
    &&& json_nulls(object) == Map::<Seq<char>, bool>::empty()
}

/// Calls `serde_json::Map::new`: an object without members.
#[verifier::external_body]
pub(crate) fn object_new() -> (object: serde_json::Map<String, serde_json::Value>)
    ensures
        has_no_members(object),
{
    serde_json::Map::new()
}

/// Calls `serde_json::Map::insert` with an integer: the member `key` then
/// holds that integer, whatever it held before; other members are unchanged.
#[verifier::external_body]
pub(crate) fn put_int(
    object: &mut serde_json::Map<String, serde_json::Value>,
    key: &str,
    value: i64,
)
    ensures
        json_ints(*final(object)) == json_ints(*old(object)).insert(key@, value),
        json_bools(*final(object)) == json_bools(*old(object)).remove(key@),
        json_texts(*final(object)) == json_texts(*old(object)).remove(key@),
        json_nulls(*final(object)) == json_nulls(*old(object)).insert(key@, false),
{
    object.insert(key.to_owned(), serde_json::Value::from(value));
}

/// Calls `serde_json::Map::insert` with a boolean: the member `key` then
/// holds that boolean; other members are unchanged.
#[verifier::external_body]
pub(crate) fn put_bool(
    object: &mut serde_json::Map<String, serde_json::Value>,
    key: &str,
    value: bool,
)
    ensures
        json_ints(*final(object)) == json_ints(*old(object)).remove(key@),
        json_bools(*final(object)) == json_bools(*old(object)).insert(key@, value),
        json_texts(*final(object)) == json_texts(*old(object)).remove(key@),
        json_nulls(*final(object)) == json_nulls(*old(object)).insert(key@, false),
{
    object.insert(key.to_owned(), serde_json::Value::from(value));
}

/// Calls `serde_json::Map::insert` with a string: the member `key` then
/// holds that string; other members are unchanged.
#[verifier::external_body]
pub(crate) fn put_text(
    object: &mut serde_json::Map<String, serde_json::Value>,
    key: &str,
    value: &str,
)
    ensures
        json_ints(*final(object)) == json_ints(*old(object)).remove(key@),
        json_bools(*final(object)) == json_bools(*old(object)).remove(key@),
        json_texts(*final(object)) == json_texts(*old(object)).insert(key@, value@),
        json_nulls(*final(object)) == json_nulls(*old(object)).insert(key@, false),
{
    object.insert(key.to_owned(), serde_json::Value::from(value));
}

/// Calls `serde_json::Map::insert` with `Value::Null`: the member `key`
/// then holds `null`; other members are unchanged.
#[verifier::external_body]
pub(crate) fn put_null(object: &mut serde_json::Map<String, serde_json::Value>, key: &str)
    ensures
        json_ints(*final(object)) == json_ints(*old(object)).remove(key@),
        json_bools(*final(object)) == json_bools(*old(object)).remove(key@),
        json_texts(*final(object)) == json_texts(*old(object)).remove(key@),
        json_nulls(*final(object)) == json_nulls(*old(object)).insert(key@, true),
{
    object.insert(key.to_owned(), serde_json::Value::Null);
}

/// Calls `serde_json::Map::get` and `Value::as_i64`: the integer that the
/// member `key` holds, if there is such a member and it holds one.
#[verifier::external_body]
pub(crate) fn get_int(object: &serde_json::Map<String, serde_json::Value>, key: &str) -> (found:
    Option<i64>)
    ensures
        found == lookup(json_ints(*object), key@),
{
    object.get(key).and_then(serde_json::Value::as_i64)
}

/// Calls `serde_json::Map::get` and `Value::as_bool`: the boolean that the
/// member `key` holds, if there is such a member and it holds one.
#[verifier::external_body]
pub(crate) fn get_bool(object: &serde_json::Map<String, serde_json::Value>, key: &str) -> (found:
    Option<bool>)
    ensures
        found == lookup(json_bools(*object), key@),
{
    object.get(key).and_then(serde_json::Value::as_bool)
}

/// Calls `serde_json::Map::get` and `Value::as_str`: the string that the
/// member `key` holds, if there is such a member and it holds one.
#[verifier::external_body]
pub(crate) fn get_text(object: &serde_json::Map<String, serde_json::Value>, key: &str) -> (found:
    Option<String>)
    ensures
        text_view(found) == lookup(json_texts(*object), key@),
{
    object.get(key).and_then(serde_json::Value::as_str).map(str::to_owned)
}

/// Calls `serde_json::Map::get` and `Value::is_null`: whether the member
/// `key` holds `null`, if there is such a member.
#[verifier::external_body]
pub(crate) fn get_null(object: &serde_json::Map<String, serde_json::Value>, key: &str) -> (found:
    Option<bool>)
    ensures
        found == lookup(json_nulls(*object), key@),
{
    object.get(key).map(serde_json::Value::is_null)
}

} // verus!
