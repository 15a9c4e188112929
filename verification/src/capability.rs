//! The two capabilities an animal may adopt.
//!
//! Each capability has one operation with a provided behaviour. An adopter
//! either keeps that behaviour or supplies its own; which of the two runs
//! is settled when the program is compiled.

use vstd::prelude::*;

verus! {

/// The text an adopter of [`Speak`] utters when it keeps the provided
/// behaviour.
pub open spec fn default_sound() -> Seq<char> {
    "Animal sound."@
}

/// The text an adopter of [`Recall`] answers with when it keeps the provided
/// behaviour.
pub open spec fn default_answer() -> Seq<char> {
    "I'm coming back."@
}

/// The capability of making a sound.
pub trait Speak {
    /// Describes the sound of this animal.
    ///
    /// An adopter that keeps the provided behaviour utters
    /// [`default_sound`]; one that supplies its own states what it utters in
    /// its own `ensures`.
    fn speak(&self) -> (sound: &str)
        default_ensures
            sound@ == default_sound(),
    {
        "Animal sound."
    }
}

/// The capability of answering when called back.
pub trait Recall {
    /// Describes how this animal answers a call.
    ///
    /// An adopter that keeps the provided behaviour answers with
    /// [`default_answer`]; one that supplies its own states its answer in
    /// its own `ensures`.
    fn recall(&self) -> (answer: &str)
        default_ensures
            answer@ == default_answer(),
    {
        "I'm coming back."
    }
}

} // verus!
