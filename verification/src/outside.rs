//! Types of outside crates that the library's values carry.

use vstd::prelude::*;

verus! {

/// A JSON document, from `serde_json`.
#[verifier::external_type_specification]
#[verifier::external_body]
pub struct ExJsonValue(serde_json::Value);

/// `serde_json::Value::clone` (derived): nothing is stated of the copy, as
/// `Value` is opaque here.
pub assume_specification[ <serde_json::Value as std::clone::Clone>::clone ](
    v: &serde_json::Value,
) -> serde_json::Value;

} // verus!
