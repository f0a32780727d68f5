//! Random selection among feedback-sound candidates.

use vstd::prelude::*;

verus! {

#[verifier::external_type_specification]
#[verifier::external_body]
pub struct ExWyRand(nanorand::WyRand);

/// A pseudo-random source, used by the coordinator alone.
pub struct Random {
    rng: nanorand::WyRand,
}

impl Random {
    /// Relies on nanorand's `WyRand::new`: a generator seeded from the
    /// system's entropy source.  Nothing is promised of the values it will
    /// yield.
    #[verifier::external_body]
    pub fn new() -> (r: Random) {
        Random { rng: nanorand::WyRand::new() }
    }

    /// Relies on nanorand's `Rng::generate_range`: over the half-open range
    /// `0..upper` it returns a value below `upper`, and panics only when the
    /// range is empty.
    #[verifier::external_body]
    fn random_index(&mut self, upper: usize) -> (r: usize)
        requires
            upper >= 1,
        ensures
            r < upper,
    {
        nanorand::Rng::generate_range(&mut self.rng, 0..upper)
    }

    /// Picks some element of a non-empty list.
    pub fn choose_random_element(&mut self, elements: &Vec<String>) -> (r: String)
        requires
            elements@.len() >= 1,
        ensures
            exists|i: int| 0 <= i < elements@.len() && r@ == elements@[i]@,
    {
        let index = self.random_index(elements.len());
        let element = &elements[index];
        element.clone()
    }
}

} // verus!
