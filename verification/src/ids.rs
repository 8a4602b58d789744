//! The injected source of fresh identifiers.

use vstd::prelude::*;

verus! {

/// Draws a fresh random identifier for a new aggregate.
///
/// Relies on `uuid::Uuid::new_v4` and its `Display` rendering: a version 4
/// UUID printed in the hyphenated form, which is always 36 characters.
/// The value is random, so nothing more is promised of it; in particular
/// uniqueness among the identifiers this process has drawn is only
/// probabilistic and is not stated.
#[verifier::external_body]
pub(crate) fn fresh_id() -> (r: String)
    ensures
        r@.len() == 36,
{
    uuid::Uuid::new_v4().to_string()
}

} // verus!
