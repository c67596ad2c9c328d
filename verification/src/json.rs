//! JSON objects, as far as a token's payload needs them.
//!
//! A payload is a `serde_json::Map` from member names to JSON values. The
//! crate reads and writes two kinds of member only, integers and texts, and
//! speaks of an object through three views: its member names, its integer
//! members and its text members.

use vstd::prelude::*;

verus! {

/// `serde_json::Value`: one JSON value. Nothing is known of what is inside.
#[verifier::external_type_specification]
#[verifier::external_body]
pub struct ExJsonValue(serde_json::Value);

/// `serde_json::Map`: the members of a JSON object, by name. What is inside
/// is known through the three views below only.
#[verifier::external_type_specification]
#[verifier::external_body]
#[verifier::reject_recursive_types(K)]
#[verifier::reject_recursive_types(V)]
pub struct ExJsonMap<K, V>(serde_json::Map<K, V>);

/// The names of all members of a JSON object.
pub uninterp spec fn object_names(object: serde_json::Map<String, serde_json::Value>) -> Set<
    Seq<char>,
>;

/// The members of a JSON object whose value is a JSON integer, each with the
/// integer it holds.
pub uninterp spec fn object_integers(object: serde_json::Map<String, serde_json::Value>) -> Map<
    Seq<char>,
    int,
>;

/// The members of a JSON object whose value is a JSON string, each with the
/// text it holds.
pub uninterp spec fn object_texts(object: serde_json::Map<String, serde_json::Value>) -> Map<
    Seq<char>,
    Seq<char>,
>;

/// The integer members of an object that has none.
pub open spec fn no_integers() -> Map<Seq<char>, int> {
    Map::empty()
}

/// The text members of an object that has none.
pub open spec fn no_texts() -> Map<Seq<char>, Seq<char>> {
    Map::empty()
}

/// Every member of the object is an integer or a text.
pub open spec fn only_scalars(object: serde_json::Map<String, serde_json::Value>) -> bool {
    object_names(object) == object_integers(object).dom().union(object_texts(object).dom())
}

/// `serde_json::Map::new`: an object without members.
#[verifier::external_body]
pub(crate) fn new_object() -> (object: serde_json::Map<String, serde_json::Value>)
    ensures
        object_names(object) == Set::<Seq<char>>::empty(),
        object_integers(object) == no_integers(),
        object_texts(object) == no_texts(),
{
    serde_json::Map::new()
}

/// `serde_json::Map::insert` with `serde_json::Value::from` of a signed
/// integer as the value: the member `name` is that integer afterwards,
/// whatever it was before, and no other member changes.
#[verifier::external_body]
pub(crate) fn put_signed(
    object: &mut serde_json::Map<String, serde_json::Value>,
    name: &str,
    number: i64,
)
    ensures
        object_names(*final(object)) == object_names(*old(object)).insert(name@),
        object_integers(*final(object)) == object_integers(*old(object)).insert(
            name@,
            number as int,
        ),
        object_texts(*final(object)) == object_texts(*old(object)).remove(name@),
{
    object.insert(name.to_string(), serde_json::Value::from(number));
}

/// `serde_json::Map::insert` with `serde_json::Value::from` of an unsigned
/// integer as the value: the member `name` is that integer afterwards,
/// whatever it was before, and no other member changes.
#[verifier::external_body]
pub(crate) fn put_unsigned(
    object: &mut serde_json::Map<String, serde_json::Value>,
    name: &str,
    number: u64,
)
    ensures
        object_names(*final(object)) == object_names(*old(object)).insert(name@),
        object_integers(*final(object)) == object_integers(*old(object)).insert(
            name@,
            number as int,
        ),
        object_texts(*final(object)) == object_texts(*old(object)).remove(name@),
{
    object.insert(name.to_string(), serde_json::Value::from(number));
}

/// `serde_json::Map::insert` with `serde_json::Value::from` of a string as
/// the value: the member `name` is that text afterwards, whatever it was
/// before, and no other member changes.
#[verifier::external_body]
pub(crate) fn put_text(
    object: &mut serde_json::Map<String, serde_json::Value>,
    name: &str,
    text: &str,
)
    ensures
        object_names(*final(object)) == object_names(*old(object)).insert(name@),
        object_integers(*final(object)) == object_integers(*old(object)).remove(name@),
        object_texts(*final(object)) == object_texts(*old(object)).insert(name@, text@),
{
    object.insert(name.to_string(), serde_json::Value::from(text));
}

/// `serde_json::Map::get` followed by `serde_json::Value::as_i64`: the
/// member `name` where it is an integer that an `i64` can hold.
#[verifier::external_body]
pub(crate) fn signed_at(object: &serde_json::Map<String, serde_json::Value>, name: &str) -> (number:
    Option<i64>)
    ensures
        number == signed_member(object_integers(*object), name@),
{
    object.get(name).and_then(|value| value.as_i64())
}

/// `serde_json::Map::get` followed by `serde_json::Value::as_u64`: the
/// member `name` where it is an integer that a `u64` can hold.
#[verifier::external_body]
pub(crate) fn unsigned_at(object: &serde_json::Map<String, serde_json::Value>, name: &str) -> (number:
    Option<u64>)
    ensures
        number == unsigned_member(object_integers(*object), name@),
{
    object.get(name).and_then(|value| value.as_u64())
}

/// `serde_json::Map::get` followed by `serde_json::Value::as_str`: a copy of
/// the member `name` where it is a string.
#[verifier::external_body]
pub(crate) fn text_at(object: &serde_json::Map<String, serde_json::Value>, name: &str) -> (text:
    Option<String>)
    ensures
        text is Some == object_texts(*object).contains_key(name@),
        text matches Some(t) ==> t@ == object_texts(*object)[name@],
{
    object.get(name).and_then(|value| value.as_str()).map(|text| text.to_string())
}

/// The integer member `name`, if there is one and it fits an `i64`.
pub open spec fn signed_member(integers: Map<Seq<char>, int>, name: Seq<char>) -> Option<i64> {
    if integers.contains_key(name) && i64::MIN <= integers[name] <= i64::MAX {
        Some(integers[name] as i64)
    } else {
        None
    }
}

/// The integer member `name`, if there is one and it fits a `u64`.
pub open spec fn unsigned_member(integers: Map<Seq<char>, int>, name: Seq<char>) -> Option<u64> {
    if integers.contains_key(name) && 0 <= integers[name] <= u64::MAX {
        Some(integers[name] as u64)
    } else {
        None
    }
}

/// The text member `name`, if there is one.
pub open spec fn text_member(texts: Map<Seq<char>, Seq<char>>, name: Seq<char>) -> Option<
    Seq<char>,
> {
    if texts.contains_key(name) {
        Some(texts[name])
    } else {
        None
    }
}

} // verus!
