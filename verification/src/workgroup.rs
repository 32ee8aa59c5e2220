//! Waiting on a batch of futures at once.

use crate::latent::Latent;
use vstd::prelude::*;

verus! {

/// A batch of same-type futures waited on together: `wait` blocks for each
/// in turn and hands back one value per future, in the batch's order.
#[verifier::reject_recursive_types(T)]
pub struct WaitGroup<T: Clone> {
    latents: Vec<Latent<T>>,
}

impl<T: Clone> WaitGroup<T> {
    /// How many futures the batch holds.
    pub closed spec fn pending(self) -> nat {
        self.latents@.len()
    }

    pub fn new() -> (r: Self)
        ensures
            r.pending() == 0,
    {
        WaitGroup { latents: Vec::new() }
    }

    /// Adds one future to the batch.
    pub fn add(&mut self, latent: Latent<T>)
        ensures
            final(self).pending() == old(self).pending() + 1,
    {
        self.latents.push(latent);
    }

    /// Blocks until every future in the batch has resolved and returns their
    /// values, one per future, in the order they were added; the batch is
    /// empty afterwards.
    pub fn wait(&mut self) -> (results: Vec<T>)
        ensures
            results@.len() == old(self).pending(),
            final(self).pending() == 0,
    {
        let mut results = Vec::<T>::new();
        let mut pending = self.latents.split_off(0);
        while pending.len() > 0
            invariant
                results@.len() + pending@.len() == old(self).latents@.len(),
                self.latents@.len() == 0,
            decreases pending@.len(),
        {
            let latent = pending.remove(0);
            results.push(latent.wait());
        }
        results
    }
}

} // verus!
