//! The two animals: a dog, which speaks and comes back when called, and a
//! cat, which only speaks.

use vstd::prelude::*;

use crate::capability::{Recall, Speak};

verus! {

/// A dog. It has no state.
pub struct Dog {}

/// A cat. It has no state.
pub struct Cat {}

/// The sound of every dog.
pub open spec fn dog_sound() -> Seq<char> {
    "Bark"@
}

/// The sound of every cat.
pub open spec fn cat_sound() -> Seq<char> {
    "Meow"@
}

impl Speak for Dog {
    fn speak(&self) -> (sound: &str)
        ensures
            sound@ == dog_sound(),
    {
        "Bark"
    }
}

impl Speak for Cat {
    fn speak(&self) -> (sound: &str)
        ensures
            sound@ == cat_sound(),
    {
        "Meow"
    }
}

/// A dog keeps the provided answer.
impl Recall for Dog {

}

} // verus!
