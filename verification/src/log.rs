//! Which records the log keeps.

use vstd::prelude::*;

verus! {

/// `str::starts_with` of the standard library, on a string slice as the
/// pattern: whether the text begins with the characters of the prefix.
#[verifier::external_body]
fn starts_with(text: &str, prefix: &str) -> (begins: bool)
    ensures
        begins == prefix@.is_prefix_of(text@),
{
    text.starts_with(prefix)
}

/// Log filter to only log messages with target matching the given target:
/// without a filter every record is kept, with one only those whose target
/// begins with it.
pub fn filter_log_matching_target(target: &str, matching_target: &Option<String>) -> (kept: bool)
    ensures
        kept == match matching_target {
            Some(prefix) => prefix@.is_prefix_of(target@),
            None => true,
        },
{
    match matching_target {
        Some(prefix) => starts_with(target, prefix.as_str()),
        None => true,
    }
}

} // verus!
