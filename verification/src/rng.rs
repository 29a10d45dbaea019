use vstd::prelude::*;

verus! {

/// Relies on `rand::random_range` over `Range<i64>`: the result is uniform in
/// `[lo, hi)`; the call panics on an empty range, which the `requires`
/// excludes. (The thread-local generator's first use can also fail if the
/// operating system's entropy source does — an environmental startup failure,
/// like the audio device, not a property of any input.) Nothing else is
/// assumed of the value drawn.
#[verifier::external_body]
pub(crate) fn rand_i64_in(lo: i64, hi: i64) -> (r: i64)
    requires
        lo < hi,
    ensures
        lo <= r < hi,
{
    rand::random_range(lo..hi)
}

} // verus!
