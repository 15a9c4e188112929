//! A pet: one animal, owned by its keeper.

use vstd::prelude::*;

use crate::capability::{Recall, Speak};

verus! {

/// Owns exactly one animal. What can be asked of the pet depends on what
/// the animal can do: each method exists only for animals with the
/// capability it needs.
pub struct Pet<T> {
    pub animal: T,
}

impl<T: Recall> Pet<T> {
    /// Calls the pet back. The answer is the animal's own answer.
    pub fn call_back(&self) -> (answer: &str)
        ensures
            call_ensures(T::recall, (&self.animal,), answer),
    {
        self.animal.recall()
    }
}

impl<T: Speak> Pet<T> {
    /// Provokes the pet. The sound is the animal's own sound.
    pub fn provoke(&self) -> (sound: &str)
        ensures
            call_ensures(T::speak, (&self.animal,), sound),
    {
        self.animal.speak()
    }
}

} // verus!
