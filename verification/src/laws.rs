//! What holds of every dog, every cat and every pet that owns one.
//!
//! Each statement is about any text that the operation's contract admits
//! as its result, so it holds of every call.

use vstd::prelude::*;

use crate::animal::{cat_sound, dog_sound, Cat, Dog};
use crate::capability::{default_answer, Recall, Speak};
use crate::pet::Pet;

verus! {

/// A dog barks, and answers a call with the provided answer.
pub proof fn dog_barks_and_comes_back(dog: Dog, sound: &str, answer: &str)
    requires
        call_ensures(Dog::speak, (&dog,), sound),
        call_ensures(Dog::recall, (&dog,), answer),
    ensures
        sound@ == dog_sound(),
        answer@ == default_answer(),
{
}

/// A cat meows.
pub proof fn cat_meows(cat: Cat, sound: &str)
    requires
        call_ensures(Cat::speak, (&cat,), sound),
    ensures
        sound@ == cat_sound(),
{
}

/// A pet dog barks when provoked and answers when called back: both
/// operations of the pet pass the dog's own text on.
pub proof fn pet_dog_barks_and_comes_back(pet: Pet<Dog>, sound: &str, answer: &str)
    requires
        call_ensures(Pet::<Dog>::provoke, (&pet,), sound),
        call_ensures(Pet::<Dog>::call_back, (&pet,), answer),
    ensures
        sound@ == dog_sound(),
        answer@ == default_answer(),
{
}

/// A pet cat meows when provoked.
pub proof fn pet_cat_meows(pet: Pet<Cat>, sound: &str)
    requires
        call_ensures(Pet::<Cat>::provoke, (&pet,), sound),
    ensures
        sound@ == cat_sound(),
{
}

} // verus!
