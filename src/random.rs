use vstd::prelude::*;

verus! {

/// Relies on rand's `Rng::gen_range` on the thread-local generator of
/// `rand::thread_rng`: a value drawn from `lo ..= hi`. `gen_range` panics
/// only on an empty range, which `requires` leaves out.
#[verifier::external_body]
pub(crate) fn random_in(lo: u16, hi: u16) -> (r: u16)
    requires
        lo <= hi,
    ensures
        lo <= r <= hi,
{
    rand::Rng::gen_range(&mut rand::thread_rng(), lo..=hi)
}

} // verus!
