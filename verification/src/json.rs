//! JSON values carried through the library unread.

use vstd::prelude::*;

verus! {

/// `serde_json::Value`: a field value of a query result row. The library moves
/// and copies such values but never looks inside them.
#[verifier::external_type_specification]
#[verifier::external_body]
pub struct ExJsonValue(serde_json::Value);

/// `<serde_json::Value as Clone>::clone`. `Value` derives `Clone`, so the copy
/// is the same value.
pub assume_specification[ <serde_json::Value as Clone>::clone ](v: &serde_json::Value) -> (r:
    serde_json::Value)
    ensures
        r == *v,
;

} // verus!
