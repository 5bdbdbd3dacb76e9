//! Allocation of fresh task identifiers.

use vstd::prelude::*;

verus! {

/// Relies on `uuid::Uuid::new_v4` and its hyphenated `Display` form: a
/// freshly drawn random identifier rendered as 36 characters. Nothing more
/// is assumed of the value: randomness gives no uniqueness a proof could
/// rest on, so callers state what holds whatever identifier came back.
#[verifier::external_body]
pub(crate) fn fresh_uuid_string() -> (r: String)
    ensures
        r@.len() == 36,
{
    uuid::Uuid::new_v4().to_string()
}

} // verus!
