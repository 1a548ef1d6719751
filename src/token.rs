//! Fresh random identifiers, used for record ids and version tokens.

use vstd::prelude::*;

verus! {

/// Relies on `uuid::Uuid::new_v4` and its `Display`: a fresh random 128-bit
/// identifier in hyphenated form. Nothing is promised of its value.
#[verifier::external_body]
pub(crate) fn new_token() -> (r: String) {
    uuid::Uuid::new_v4().to_string()
}

} // verus!
