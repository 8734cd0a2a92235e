use vstd::prelude::*;

verus! {

#[verifier::external_type_specification]
#[verifier::external_body]
pub struct ExThreadRng(rand::rngs::ThreadRng);

/// Relies on `rand::rng`: a handle on the generator of the current thread.
#[verifier::external_body]
pub(crate) fn thread_generator() -> rand::rngs::ThreadRng {
    rand::rng()
}

/// Relies on `rand::Rng::random_range`, which draws from the half-open range
/// it is given and panics only on an empty one.
#[verifier::external_body]
pub(crate) fn random_below(generator: &mut rand::rngs::ThreadRng, bound: u32) -> (r: u32)
    requires
        bound > 0,
    ensures
        r < bound,
{
    rand::Rng::random_range(generator, 0..bound)
}

} // verus!
