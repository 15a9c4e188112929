//! Animals, what they can do, and what can be asked of them.
//!
//! A capability ([`Speak`], [`Recall`]) is one operation with a provided
//! behaviour. [`Dog`] adopts both and [`Cat`] only the first. The functions
//! of [`outing`] and the methods of [`Pet`] accept any animal that has the
//! capabilities they name.

pub mod animal;
pub mod capability;
pub mod laws;
pub mod outing;
pub mod pet;

pub use animal::{Cat, Dog};
pub use capability::{Recall, Speak};
pub use pet::Pet;
