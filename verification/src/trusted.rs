//! The few calls the library takes on trust: identifier generation and
//! runtime-version discovery from outside crates, and one std conversion.

use vstd::prelude::*;

verus! {

/// Relies on uuid::Uuid::new_v4 and the hyphenated form its Display impl
/// writes: a random 128-bit identifier always renders as 36 characters.
/// Nothing is promised of the value itself; it depends on the random
/// source.
#[verifier::external_body]
pub(crate) fn new_uuid_string() -> (r: String)
    ensures
        r@.len() == 36,
{
    uuid::Uuid::new_v4().to_string()
}

/// Relies on rustc_version::version_meta, which asks the runtime's
/// compiler for its version: its short version string on success, nothing
/// on failure. The result depends on the environment, so nothing is
/// promised of it.
#[verifier::external_body]
pub(crate) fn runtime_version() -> (r: Option<String>) {
    match rustc_version::version_meta() {
        Ok(meta) => Some(meta.short_version_string),
        Err(_) => None,
    }
}

/// Relies on String's FromIterator impl: collecting characters yields the
/// string of exactly those characters in order.
#[verifier::external_body]
pub(crate) fn chars_to_string(v: &Vec<char>) -> (r: String)
    ensures
        r@ == v@,
{
    v.iter().collect()
}

} // verus!
