use traits::outing::{
    take_to_park, take_to_park_trait_bound_syntax, take_to_play, take_to_play_trait_bound_syntax,
    take_two_to_play_trait_bound_syntax, take_two_to_play_trait_bound_syntax_where,
};
use traits::{Dog, Recall, Speak};

/// A second animal with both capabilities.
struct Pony;

impl Speak for Pony {}

impl Recall for Pony {}

/// An animal that only comes back when called.
struct Pigeon;

impl Recall for Pigeon {}

#[test]
fn park_with_a_named_animal() {
    let dog = Dog {};
    assert_eq!(take_to_park(&dog, "animal"), "Taking a animal to the park.");
}

#[test]
fn park_with_an_animal_known_by_its_type() {
    let dog = Dog {};
    assert_eq!(
        take_to_park_trait_bound_syntax(&dog, "traits::Dog"),
        "Taking a traits::Dog to the park."
    );
}

#[test]
fn park_needs_only_recall() {
    assert_eq!(take_to_park(&Pigeon, "pigeon"), "Taking a pigeon to the park.");
    assert_eq!(
        take_to_park_trait_bound_syntax(&Pigeon, "Pigeon"),
        "Taking a Pigeon to the park."
    );
}

#[test]
fn play_with_a_named_animal() {
    let dog = Dog {};
    assert_eq!(take_to_play(&dog, "animal"), "Taking a animal to play.");
}

#[test]
fn play_with_an_animal_known_by_its_type() {
    let dog = Dog {};
    assert_eq!(
        take_to_play_trait_bound_syntax(&dog, "traits::Dog"),
        "Taking a traits::Dog to play."
    );
}

#[test]
fn two_dogs_play() {
    let dog = Dog {};
    let dog2 = Dog {};
    assert_eq!(
        take_two_to_play_trait_bound_syntax_where(&dog2, "traits::Dog", &dog, "traits::Dog"),
        "Taking a traits::Dog and a traits::Dog to play."
    );
    assert_eq!(
        take_two_to_play_trait_bound_syntax(&dog2, "traits::Dog", &dog, "traits::Dog"),
        "Taking a traits::Dog and a traits::Dog to play."
    );
}

#[test]
fn two_animals_of_different_types_play() {
    let dog = Dog {};
    assert_eq!(
        take_two_to_play_trait_bound_syntax(&dog, "Dog", &Pony, "Pony"),
        "Taking a Dog and a Pony to play."
    );
    assert_eq!(
        take_two_to_play_trait_bound_syntax_where(&Pony, "Pony", &dog, "Dog"),
        "Taking a Pony and a Dog to play."
    );
}

#[test]
fn labels_keep_their_order() {
    let dog = Dog {};
    let line = take_two_to_play_trait_bound_syntax(&dog, "first", &Pony, "second");
    assert_eq!(line, "Taking a first and a second to play.");
    assert_ne!(line, "Taking a second and a first to play.");
}

#[test]
fn empty_label() {
    let dog = Dog {};
    assert_eq!(take_to_park(&dog, ""), "Taking a  to the park.");
    assert_eq!(take_to_play(&dog, ""), "Taking a  to play.");
    assert_eq!(
        take_two_to_play_trait_bound_syntax(&dog, "", &dog, ""),
        "Taking a  and a  to play."
    );
}

#[test]
fn label_outside_ascii() {
    let dog = Dog {};
    assert_eq!(take_to_park(&dog, "chien fidèle"), "Taking a chien fidèle to the park.");
}
