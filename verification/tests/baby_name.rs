use advanced_traits::baby_name::{Animal, Dog};

#[test]
fn dog_own_name_is_spot() {
    assert_eq!(Dog::baby_name(), "Spot");
}

#[test]
fn dog_as_animal_has_a_puppy() {
    assert_eq!(<Dog as Animal>::baby_name(), "puppy");
}

#[test]
fn own_name_is_not_the_animal_name() {
    assert_ne!(Dog::baby_name(), <Dog as Animal>::baby_name());
}

#[test]
fn names_stay_the_same() {
    assert_eq!(Dog::baby_name(), Dog::baby_name());
    assert_eq!(<Dog as Animal>::baby_name(), <Dog as Animal>::baby_name());
}
