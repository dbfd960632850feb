//! The JSON payload type that travels through the library untouched.

use vstd::prelude::*;

verus! {

/// `serde_json::Value`, carried as an opaque payload: the library moves such
/// values between messages and handlers and never looks inside one.
#[verifier::external_type_specification]
#[verifier::external_body]
pub struct ExJsonValue(serde_json::Value);

/// `Value::clone`, which `serde_json` derives: the copy is the same JSON
/// value as the one it was made from. Not proved here.
pub assume_specification[ <serde_json::Value as Clone>::clone ](
    value: &serde_json::Value,
) -> (copy: serde_json::Value)
    ensures
        copy == *value,
;

} // verus!
