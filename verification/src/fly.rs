//! One person, three ways to fly.
//!
//! `Human` implements both `Pilot` and `Wizard`, which each declare a method
//! `fly`, and has a method `fly` of its own. Every `fly` hands back the line
//! that is spoken, and leaves it to the caller to print it. Which of the three
//! runs is decided where the call is written: `Pilot::fly(&person)` and
//! `Wizard::fly(&person)` name the trait, `Human::fly(&person)` and
//! `person.fly()` both reach the method of `Human` itself.

use vstd::prelude::*;

verus! {

/// What a pilot says.
pub open spec fn pilot_line() -> Seq<char> {
    "This is your captain speaking."@
}

/// What a wizard says.
pub open spec fn wizard_line() -> Seq<char> {
    "Up!"@
}

/// What a human without any training says.
pub open spec fn human_line() -> Seq<char> {
    "*waving arms furiously*"@
}

/// Someone who can fly a plane.
pub trait Pilot {
    /// The line that `fly` hands back. It depends on the value alone.
    spec fn spec_fly(&self) -> Seq<char>;

    /// Speaks as a pilot.
    fn fly(&self) -> (line: String)
        ensures
            line@ == self.spec_fly(),
    ;
}

/// Someone who can fly by magic.
pub trait Wizard {
    /// The line that `fly` hands back. It depends on the value alone.
    spec fn spec_fly(&self) -> Seq<char>;

    /// Speaks as a wizard.
    fn fly(&self) -> (line: String)
        ensures
            line@ == self.spec_fly(),
    ;
}

/// A person. There is nothing to tell two of them apart.
pub struct Human;

impl Pilot for Human {
    open spec fn spec_fly(&self) -> Seq<char> {
        pilot_line()
    }

    fn fly(&self) -> (line: String)
        ensures
            line@ == pilot_line(),
    {
        "This is your captain speaking.".to_owned()
    }
}

impl Wizard for Human {
    open spec fn spec_fly(&self) -> Seq<char> {
        wizard_line()
    }

    fn fly(&self) -> (line: String)
        ensures
            line@ == wizard_line(),
    {
        "Up!".to_owned()
    }
}

impl Human {
    /// The line that the person's own `fly` hands back.
    pub open spec fn spec_fly(&self) -> Seq<char> {
        human_line()
    }

    /// Speaks as an untrained person. A call written `person.fly()` runs this
    /// method, not one of the traits'.
    pub fn fly(&self) -> (line: String)
        ensures
            line@ == self.spec_fly(),
            line@ == human_line(),
    {
        "*waving arms furiously*".to_owned()
    }
}

/// The lines of one person flying every way there is to ask for it: as a
/// pilot, as a wizard, by the person's own method named in full, and with
/// nothing named at all.
pub open spec fn every_way(person: Human) -> Seq<Seq<char>> {
    seq![
        Pilot::spec_fly(&person),
        Wizard::spec_fly(&person),
        Human::spec_fly(&person),
        person.spec_fly(),
    ]
}

/// Asks `person` to fly in each of the four ways, in the order of
/// [`every_way`], and collects the lines.
pub fn fly_every_way(person: &Human) -> (lines: Vec<String>)
    ensures
        lines.deep_view() == every_way(*person),
        lines.deep_view() == seq![pilot_line(), wizard_line(), human_line(), human_line()],
{
    let mut lines: Vec<String> = Vec::new();
    lines.push(Pilot::fly(person));
    lines.push(Wizard::fly(person));
    lines.push(Human::fly(person));
    lines.push(person.fly());
    assert(lines.deep_view() =~= every_way(*person));
    lines
}

/// The three lines are three different texts, so a line tells which `fly`
/// spoke it.
pub proof fn lemma_lines_differ()
    ensures
        pilot_line() != wizard_line(),
        pilot_line() != human_line(),
        wizard_line() != human_line(),
{
    reveal_strlit("This is your captain speaking.");
    reveal_strlit("Up!");
    reveal_strlit("*waving arms furiously*");
    // They differ in length already.
    assert(pilot_line().len() == 30);
    assert(wizard_line().len() == 3);
    assert(human_line().len() == 23);
}

/// Naming a trait decides which line is spoken: asked as a pilot the person
/// speaks the pilot's line and neither of the others, asked as a wizard the
/// wizard's line and neither of the others. Nothing but the person enters
/// into it, so no earlier call can change the answer.
pub proof fn lemma_qualified_call_picks_trait(person: Human)
    ensures
        Pilot::spec_fly(&person) == pilot_line(),
        Pilot::spec_fly(&person) != wizard_line(),
        Pilot::spec_fly(&person) != human_line(),
        Wizard::spec_fly(&person) == wizard_line(),
        Wizard::spec_fly(&person) != pilot_line(),
        Wizard::spec_fly(&person) != human_line(),
{
    lemma_lines_differ();
}

/// With no trait named, the person's own method answers: `person.spec_fly()`
/// is `Human::spec_fly(&person)`, and is neither trait's line.
pub proof fn lemma_unqualified_call_is_own(person: Human)
    ensures
        person.spec_fly() == Human::spec_fly(&person),
        person.spec_fly() == human_line(),
        person.spec_fly() != Pilot::spec_fly(&person),
        person.spec_fly() != Wizard::spec_fly(&person),
{
    lemma_lines_differ();
}

/// Flying leaves no trace. A `Human` has one value only, so the person found
/// after a call is the person that was there before it, and each way of
/// asking gets the same line the second time as the first.
pub proof fn lemma_fly_again_same_line(before: Human, after: Human)
    ensures
        before == after,
        Pilot::spec_fly(&before) == Pilot::spec_fly(&after),
        Wizard::spec_fly(&before) == Wizard::spec_fly(&after),
        Human::spec_fly(&before) == Human::spec_fly(&after),
{
}

} // verus!
