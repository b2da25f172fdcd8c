//! JSON objects as `serde_json` holds them, and what this library takes on
//! trust of the `serde_json` functions it calls. Nothing in this file is
//! proved: each contract restates what the `serde_json` documentation says.

use crate::decimal::decimal_digits;
use vstd::prelude::*;

verus! {

/// `serde_json::Map`, the map that holds the members of a JSON object.
#[verifier::external_type_specification]
#[verifier::external_body]
#[verifier::reject_recursive_types(K)]
#[verifier::reject_recursive_types(V)]
pub struct ExJsonMap<K, V>(serde_json::Map<K, V>);

/// `serde_json::Value`, any JSON value.
#[verifier::external_type_specification]
#[verifier::external_body]
pub struct ExJsonValue(serde_json::Value);

/// `serde_json::Error`, the error of a failed parse or a failed write.
#[verifier::external_type_specification]
#[verifier::external_body]
pub struct ExJsonError(serde_json::Error);

/// A JSON object: string keys, each with a JSON value.
pub type JsonObject = serde_json::Map<String, serde_json::Value>;

/// The members of a JSON object: each key that the object holds, with the
/// compact JSON text of the value that stands under it. The order in which
/// the object keeps its members is not part of this.
pub uninterp spec fn object_members(object: JsonObject) -> Map<Seq<char>, Seq<char>>;

/// What `serde_json::from_slice` makes of `input` when it is asked for a
/// list of objects: the objects of the array, in its order, or the error
/// for an input that is not a JSON array of objects.
pub uninterp spec fn parsed_objects(input: Seq<u8>) -> Result<Seq<JsonObject>, serde_json::Error>;

/// What `serde_json::to_string` makes of a list of objects: the compact
/// text of the JSON array that holds them in order, or its error.
pub uninterp spec fn rendered_objects(objects: Seq<JsonObject>) -> Result<
    Seq<char>,
    serde_json::Error,
>;

/// Calls `serde_json::from_slice` for a `Vec` of objects. The contract says
/// no more than that the outcome is the one named `parsed_objects`: it
/// depends on the bytes of `input` alone.
#[verifier::external_body]
pub(crate) fn parse_objects(input: &[u8]) -> (outcome: Result<Vec<JsonObject>, serde_json::Error>)
    ensures
        match outcome {
            Ok(objects) => parsed_objects(input@) == Ok::<Seq<JsonObject>, serde_json::Error>(
                objects@,
            ),
            Err(e) => parsed_objects(input@) == Err::<Seq<JsonObject>, serde_json::Error>(e),
        },
{
    serde_json::from_slice(input)
}

/// Calls `serde_json::Map::insert` with `key` and the JSON number made by
/// `serde_json::Number::from(n)`. As documented for `insert`, the value
/// under `key` is set, whether or not the key was present, and no other
/// member changes; a number made from an unsigned integer is written in
/// decimal notation.
#[verifier::external_body]
pub(crate) fn insert_number(object: &mut JsonObject, key: &str, n: usize)
    ensures
        object_members(*final(object)) == object_members(*old(object)).insert(
            key@,
            decimal_digits(n as nat),
        ),
{
    object.insert(key.to_string(), serde_json::Value::Number(serde_json::Number::from(n)));
}

/// Calls `serde_json::to_string` on a list of objects. The contract says no
/// more than that the outcome is the one named `rendered_objects`: it
/// depends on the objects alone.
#[verifier::external_body]
pub(crate) fn render_objects(objects: &Vec<JsonObject>) -> (outcome: Result<
    String,
    serde_json::Error,
>)
    ensures
        match outcome {
            Ok(text) => rendered_objects(objects@) == Ok::<Seq<char>, serde_json::Error>(text@),
            Err(e) => rendered_objects(objects@) == Err::<Seq<char>, serde_json::Error>(e),
        },
{
    serde_json::to_string(objects)
}

} // verus!
