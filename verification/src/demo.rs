//! A stack emptied from the top, and an option opened with a fallback.

use vstd::prelude::*;

verus! {

/// Pops `stack` until nothing is left and hands back what came off, the top
/// first: the items in the reverse of the order in which they were pushed.
pub fn pop_all<T>(stack: Vec<T>) -> (popped: Vec<T>)
    ensures
        popped@ == stack@.reverse(),
{
    let mut rest = stack;
    let mut popped: Vec<T> = Vec::new();
    loop
        invariant
            rest@.len() + popped@.len() == stack@.len(),
            rest@ == stack@.subrange(0, rest@.len() as int),
            forall|i: int|
                0 <= i < popped@.len() ==> popped@[i] == stack@[stack@.len() - 1 - i],
        ensures
            rest@.len() == 0,
        decreases rest@.len(),
    {
        match rest.pop() {
            Some(top) => popped.push(top),
            None => break,
        }
    }
    assert(popped@ =~= stack@.reverse());
    popped
}

/// What is read out of a text that may be missing.
pub open spec fn spec_text_or_none(matcher: Option<Seq<char>>) -> Seq<char> {
    match matcher {
        Some(text) => text,
        None => "none"@,
    }
}

/// The text inside `matcher`, or the word `none` where there is no text.
pub fn text_or_none(matcher: Option<String>) -> (text: String)
    ensures
        text@ == spec_text_or_none(matcher.deep_view()),
{
    match matcher {
        Some(some) => some,
        None => "none".to_owned(),
    }
}

/// Pushes 1, 2 and 3 on a stack and pops them all, then opens an option that
/// holds the text `none`. Hands back the numbers in the order in which they
/// came off the stack, and the text that was read.
pub fn demo() -> (outcome: (Vec<i32>, String))
    ensures
        outcome.0@ == seq![3i32, 2i32, 1i32],
        outcome.1@ == "none"@,
{
    let mut stack: Vec<i32> = Vec::new();
    stack.push(1);
    stack.push(2);
    stack.push(3);
    let popped = pop_all(stack);
    assert(popped@ =~= seq![3i32, 2i32, 1i32]);

    let matcher: Option<String> = Some("none".to_owned());
    let matched = text_or_none(matcher);
    (popped, matched)
}

} // verus!
