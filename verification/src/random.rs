//! The one source of chance used by the generators.

use vstd::prelude::*;

verus! {

/// Draws one integer from `low..high`.
///
/// Trusted: the body calls `rand::Rng::gen_range` on the generator that
/// `rand::thread_rng` hands out. That function panics on an empty range,
/// which the precondition excludes, and for a half-open integer range it
/// returns a value that is at least `low` and below `high`. Nothing else is
/// claimed of the value: two draws from the same range may differ.
#[verifier::external_body]
pub(crate) fn random_range(low: u64, high: u64) -> (drawn: u64)
    requires
        low < high,
    ensures
        low <= drawn < high,
{
    rand::Rng::gen_range(&mut rand::thread_rng(), low..high)
}

/// Draws an index into a collection of `len` items.
pub fn random_index(len: usize) -> (index: usize)
    requires
        len > 0,
    ensures
        index < len,
{
    random_range(0, len as u64) as usize
}

} // verus!
