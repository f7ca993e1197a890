//! Declaration of the JSON value type that payloads are made of. The relay
//! never looks inside a payload value: it is carried through to the
//! transport unchanged, so the type stays opaque here.
use vstd::prelude::*;

verus! {

#[verifier::external_type_specification]
#[verifier::external_body]
pub struct ExValue(serde_json::Value);

/// Relies on the `Clone` impl of `serde_json::Value`: a deep copy equal to
/// its source.
pub assume_specification[ <serde_json::Value as Clone>::clone ](v: &serde_json::Value) -> (r:
    serde_json::Value)
    ensures
        r == *v,
;

} // verus!
