//! Outings with animals: the line that announces each one.
//!
//! Every function here accepts any animal with the capabilities it names,
//! together with the label under which the caller knows the animal, and
//! returns the announcement as text. Nothing is printed here.

use vstd::prelude::*;
use vstd::string::StringExecFns;

use crate::capability::{Recall, Speak};

verus! {

/// The announcement of a trip to the park with `who`.
pub open spec fn park_line(who: Seq<char>) -> Seq<char> {
    "Taking a "@ + who + " to the park."@
}

/// The announcement of playtime with `who`.
pub open spec fn play_line(who: Seq<char>) -> Seq<char> {
    "Taking a "@ + who + " to play."@
}

/// The announcement of playtime with `first` and `second` together.
pub open spec fn play_line_for_two(first: Seq<char>, second: Seq<char>) -> Seq<char> {
    "Taking a "@ + first + " and a "@ + second + " to play."@
}

fn park_announcement(who: &str) -> (line: String)
    ensures
        line@ == park_line(who@),
{
    let mut line = String::from_str("Taking a ");
    line.append(who);
    line.append(" to the park.");
    line
}

fn play_announcement(who: &str) -> (line: String)
    ensures
        line@ == play_line(who@),
{
    let mut line = String::from_str("Taking a ");
    line.append(who);
    line.append(" to play.");
    line
}

fn play_announcement_for_two(first: &str, second: &str) -> (line: String)
    ensures
        line@ == play_line_for_two(first@, second@),
{
    let mut line = String::from_str("Taking a ");
    line.append(first);
    line.append(" and a ");
    line.append(second);
    line.append(" to play.");
    line
}

/// Announces a trip to the park with an animal that comes back when
/// called. The bound is written in place, on the parameter.
pub fn take_to_park(animal: &impl Recall, label: &str) -> (line: String)
    ensures
        line@ == park_line(label@),
{
    park_announcement(label)
}

/// Announces a trip to the park with an animal that comes back when
/// called. The bound is written on a named type parameter.
pub fn take_to_park_trait_bound_syntax<T: Recall>(animal: &T, label: &str) -> (line: String)
    ensures
        line@ == park_line(label@),
{
    park_announcement(label)
}

/// Announces playtime with an animal that both speaks and comes back when
/// called. The two bounds are written in place, on the parameter.
pub fn take_to_play(animal: &(impl Speak + Recall), label: &str) -> (line: String)
    ensures
        line@ == play_line(label@),
{
    play_announcement(label)
}

/// Announces playtime with an animal that both speaks and comes back when
/// called. The two bounds are written on a named type parameter.
pub fn take_to_play_trait_bound_syntax<T: Speak + Recall>(animal: &T, label: &str) -> (line:
    String)
    ensures
        line@ == play_line(label@),
{
    play_announcement(label)
}

/// Announces playtime with two animals, each of which speaks and comes
/// back when called. Each has a type parameter of its own, so the two may
/// be of different types.
pub fn take_two_to_play_trait_bound_syntax<T: Speak + Recall, U: Speak + Recall>(
    animal_one: &T,
    label_one: &str,
    animal_two: &U,
    label_two: &str,
) -> (line: String)
    ensures
        line@ == play_line_for_two(label_one@, label_two@),
{
    play_announcement_for_two(label_one, label_two)
}

/// Announces playtime with two animals, as
/// [`take_two_to_play_trait_bound_syntax`] does, with the bounds gathered
/// in a `where` clause.
pub fn take_two_to_play_trait_bound_syntax_where<T, U>(
    animal_one: &T,
    label_one: &str,
    animal_two: &U,
    label_two: &str,
) -> (line: String) where T: Speak + Recall, U: Speak + Recall
    ensures
        line@ == play_line_for_two(label_one@, label_two@),
{
    play_announcement_for_two(label_one, label_two)
}

} // verus!
