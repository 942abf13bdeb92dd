//! The randomness source: the thread-local generator and a uniform
//! distribution over an index range, both provided by the `rand` crate.

use rand::distr::uniform::Error;
use rand::distr::Uniform;
use rand::rngs::ThreadRng;
use rand::Rng;
use vstd::prelude::*;

verus! {

/// `rand::rngs::ThreadRng`, the handle to the thread-local generator.
#[verifier::external_type_specification]
#[verifier::external_body]
pub struct ExThreadRng(ThreadRng);

/// Holds a `rand::distr::Uniform<usize>`, a uniform distribution over a
/// range of indices. Its contents are hidden from the verifier.
#[verifier::external_body]
pub struct IndexDistribution {
    inner: Uniform<usize>,
}

/// `rand::distr::uniform::Error`, the reason a range was refused.
#[verifier::external_type_specification]
#[verifier::external_body]
pub struct ExUniformError(Error);

/// The exclusive upper end of the index range that a distribution was made
/// with.
pub uninterp spec fn range_end(dist: IndexDistribution) -> int;

/// Calls `rand::rng`. Nothing is claimed of the generator it hands out.
#[verifier::external_body]
pub(crate) fn thread_rng() -> (rng: ThreadRng) {
    rand::rng()
}

/// Calls `Uniform::try_from` on the range `0..n`. The range is accepted
/// exactly when it is not empty, and the distribution then carries `n` as
/// its upper end.
#[verifier::external_body]
pub(crate) fn index_distribution(n: usize) -> (dist: Result<IndexDistribution, Error>)
    ensures
        dist is Ok <==> n > 0,
        dist matches Ok(d) ==> range_end(d) == n,
{
    Uniform::try_from(0..n).map(|inner| IndexDistribution { inner })
}

/// Calls `Rng::sample` on the thread-local generator. Whatever index comes
/// back lies below the upper end of the distribution's range.
#[verifier::external_body]
pub(crate) fn sample_index(rng: &mut ThreadRng, dist: &IndexDistribution) -> (idx: usize)
    ensures
        idx < range_end(*dist),
{
    rng.sample(dist.inner)
}

} // verus!
