use rand::Rng;
use vstd::prelude::*;

verus! {

/// Relies on rand's `thread_rng().gen_range(lo..=hi)`: a value drawn uniformly from the
/// closed range `lo..=hi`. It panics when that range is empty, which `requires` rules
/// out (and when the thread's generator cannot be seeded by the system).
#[verifier::external_body]
pub(crate) fn random_in_range(lo: i32, hi: i32) -> (r: i32)
    requires
        lo <= hi,
    ensures
        lo <= r <= hi,
{
    rand::thread_rng().gen_range(lo..=hi)
}

} // verus!
