use vstd::prelude::*;
use rand::Rng;

verus! {

/// Relies on rand::thread_rng and rand::Rng::gen_range: drawing from
/// the half-open range `0..n`, nonempty because `n > 0`, yields a
/// value below `n`. Which value comes back is chance; nothing more is
/// assumed of it.
#[verifier::external_body]
pub(crate) fn random_below(n: u16) -> (r: u16)
    requires
        n > 0,
    ensures
        r < n,
{
    rand::thread_rng().gen_range(0..n)
}

} // verus!
