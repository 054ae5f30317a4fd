//! The opaque JSON payload type carried through the job slot.
//!
//! Job inputs and outputs are `serde_json::Value`s. The slot never inspects
//! them: it stores them, echoes them into responses, and hands them to the
//! execution engine. Verus therefore only needs to know that the type exists
//! and that cloning one yields an equal value.

use vstd::prelude::*;

verus! {

#[verifier::external_type_specification]
#[verifier::external_body]
pub struct ExValue(serde_json::Value);

/// Relies on `serde_json::Value::clone` (derived): a deep copy that is equal
/// to the original value.
pub assume_specification[ <serde_json::Value as Clone>::clone ](v: &serde_json::Value) -> (res:
    serde_json::Value)
    ensures
        res == *v,
;

} // verus!
