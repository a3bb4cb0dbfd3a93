//! JSON values, which are passed on as they are.
use vstd::prelude::*;

verus! {

/// A JSON value.
#[verifier::external_type_specification]
#[verifier::external_body]
pub struct ExJsonValue(serde_json::Value);

/// Copies a JSON value, by the `Clone` of `serde_json::Value`.
///
/// Taken on trust: the copy is the same value.
#[verifier::external_body]
fn copy_json(value: &serde_json::Value) -> (copy: serde_json::Value)
    ensures
        copy == *value,
{
    value.clone()
}

/// Copies a JSON value, if there is one.
pub(crate) fn copy_opt_json(value: &Option<serde_json::Value>) -> (copy: Option<serde_json::Value>)
    ensures
        copy == *value,
{
    match value {
        Some(value) => Some(copy_json(value)),
        None => None,
    }
}

} // verus!
