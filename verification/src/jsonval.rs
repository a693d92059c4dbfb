//! Declaration of serde_json's dynamic JSON value, which conversion
//! envelopes carry through opaquely, object by object and order-preserved.

use vstd::prelude::*;

verus! {

/// `serde_json::Value`, declared so it can stand in fields and signatures.
/// Nothing is assumed about what a value holds.
#[verifier::external_type_specification]
#[verifier::external_body]
pub struct ExValue(serde_json::Value);

} // verus!
