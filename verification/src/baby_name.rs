//! A name of one's own beside a name from a trait.
//!
//! `Animal` declares a function `baby_name` that takes no `self`. `Dog`
//! implements it, and also has a function `baby_name` of its own. Written
//! `Dog::baby_name()` the call reaches the dog's own function; the trait's is
//! reached by `<Dog as Animal>::baby_name()`.

use vstd::prelude::*;

verus! {

/// A kind of animal, which knows what its young are called.
pub trait Animal {
    /// The word that `baby_name` hands back. It is fixed for the type.
    spec fn spec_baby_name() -> Seq<char>;

    /// What the young of this kind of animal are called.
    fn baby_name() -> (name: String)
        ensures
            name@ == Self::spec_baby_name(),
    ;
}

/// A dog.
pub struct Dog;

impl Dog {
    /// The name that the dog's own `baby_name` hands back.
    pub open spec fn spec_baby_name() -> Seq<char> {
        "Spot"@
    }

    /// The name this dog went by as a puppy.
    pub fn baby_name() -> (name: String)
        ensures
            name@ == Dog::spec_baby_name(),
            name@ == "Spot"@,
    {
        "Spot".to_owned()
    }
}

impl Animal for Dog {
    open spec fn spec_baby_name() -> Seq<char> {
        "puppy"@
    }

    fn baby_name() -> (name: String)
        ensures
            name@ == "puppy"@,
    {
        "puppy".to_owned()
    }
}

/// `Dog::spec_baby_name()` is the dog's own name, and it is not the word
/// that the dog has as an `Animal`.
pub proof fn lemma_own_name_is_not_animal_name()
    ensures
        Dog::spec_baby_name() == "Spot"@,
        <Dog as Animal>::spec_baby_name() == "puppy"@,
        Dog::spec_baby_name() != <Dog as Animal>::spec_baby_name(),
{
    reveal_strlit("Spot");
    reveal_strlit("puppy");
}

} // verus!
