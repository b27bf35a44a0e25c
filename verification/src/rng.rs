//! The injectable random capability: the caller seeds a generator, wraps
//! it in `SimRng`, and threads it by exclusive reference through every
//! randomized operation (food respawn and the random walk), so that a
//! whole run is reproducible from one seed. This is the crate's only
//! trusted boundary to the `rand` crate.

use vstd::prelude::*;
use rand::Rng;

verus! {

/// `rand`'s standard generator, opaque to verification.
#[verifier::external_type_specification]
#[verifier::external_body]
pub struct ExStdRng(rand::rngs::StdRng);

/// The random capability the simulation draws from. The caller builds it
/// around a generator of its choosing (seeded for a reproducible run)
/// and passes it by exclusive reference into the operations that need it.
pub struct SimRng {
    pub inner: rand::rngs::StdRng,
}

impl SimRng {
    /// Relies on `rand::Rng::gen_range` over `0..bound`: a value drawn
    /// uniformly below `bound`. It panics only on an empty range, which
    /// the precondition excludes; nothing more can be promised of a
    /// random value than its bound.
    #[verifier::external_body]
    pub fn below(&mut self, bound: u32) -> (r: u32)
        requires
            bound >= 1,
        ensures
            r < bound,
    {
        self.inner.gen_range(0..bound)
    }
}

} // verus!
