//! The fail-fast group rule of the relay supervisor: the whole relay is
//! done as soon as any one consumer loop has terminated, whichever loop
//! that is and whatever the others are still doing.

use vstd::prelude::*;
use vstd::string::*;
use crate::consumer::LoopState;

verus! {

/// Whether the group of loops is done, and which loop ended it: `Some(i)`
/// exactly when some loop has terminated, with `i` the first such index.
/// No loop beyond the first terminated one is consulted for the verdict.
pub fn group_done(states: &Vec<LoopState>) -> (r: Option<usize>)
    ensures
        match r {
            Some(i) => i < states.len() && states@[i as int]@ is Terminated && (forall|j: int|
                0 <= j < i ==> !((#[trigger] states@[j]@) is Terminated)),
            None => forall|j: int|
                0 <= j < states@.len() ==> !((#[trigger] states@[j]@) is Terminated),
        },
{
    let mut i: usize = 0;
    while i < states.len()
        invariant
            i <= states.len(),
            forall|j: int| 0 <= j < i ==> !((#[trigger] states@[j]@) is Terminated),
        decreases states.len() - i,
    {
        if matches!(states[i], LoopState::Terminated) {
            return Some(i);
        }
        i = i + 1;
    }
    None
}

/// The line the supervisor logs for the loop whose end ended the group.
pub fn finished_line(consumer_tag: &str) -> (r: String)
    ensures
        r@ == consumer_tag@ + " finished"@,
{
    let mut r = consumer_tag.to_owned();
    r.append(" finished");
    r
}

} // verus!
