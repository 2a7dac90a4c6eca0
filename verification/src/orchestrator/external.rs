//! Outside types that the orchestrator carries through its records:
//! identifiers and JSON payloads.

use vstd::prelude::*;

verus! {

/// Identifiers of workflows, requests, users and records (`uuid::Uuid`).
#[verifier::external_type_specification]
#[verifier::external_body]
pub struct ExUuid(uuid::Uuid);

/// JSON payloads of agent results and audit entries (`serde_json::Value`).
#[verifier::external_type_specification]
#[verifier::external_body]
pub struct ExJsonValue(serde_json::Value);

/// Cloning an identifier (`Clone` for `uuid::Uuid`, which is `Copy`) gives
/// the same identifier.
pub assume_specification[ <uuid::Uuid as core::clone::Clone>::clone ](u: &uuid::Uuid) -> (r: uuid::Uuid)
    ensures
        r == *u,
;

/// Cloning a JSON value (the derived `Clone` of `serde_json::Value`) gives
/// an equal value.
pub assume_specification[ <serde_json::Value as core::clone::Clone>::clone ](v: &serde_json::Value) -> (r: serde_json::Value)
    ensures
        r == *v,
;

/// A fresh random identifier, from `uuid::Uuid::new_v4`.
///
/// The value is random, so nothing is stated of it.
#[verifier::external_body]
pub(crate) fn new_random_id() -> (id: uuid::Uuid) {
    uuid::Uuid::new_v4()
}

/// The JSON object with one member, `key`, whose value is the string
/// `value`.
pub uninterp spec fn json_string_object(key: Seq<char>, value: Seq<char>) -> serde_json::Value;

/// Builds the JSON object `{key: value}` with `serde_json::Map::new`,
/// `Map::insert`, `Value::String` and `Value::Object`.
///
/// The contract names the result: it is a function of the key and the
/// value alone.
#[verifier::external_body]
pub(crate) fn json_object_with(key: String, value: String) -> (v: serde_json::Value)
    ensures
        v == json_string_object(key@, value@),
{
    let mut object = serde_json::Map::new();
    object.insert(key, serde_json::Value::String(value));
    serde_json::Value::Object(object)
}

} // verus!
