//! Texts as sequences of characters, and what it means for one to occur in
//! another.

use vstd::prelude::*;

verus! {

/// Whether `part` stands in `text` from position `at` on, character for
/// character.
pub open spec fn occurs_at(text: Seq<char>, part: Seq<char>, at: int) -> bool {
    &&& 0 <= at
    &&& at + part.len() <= text.len()
    &&& text.subrange(at, at + part.len()) == part
}

/// Whether `part` occurs somewhere in `text` as one unbroken run.
pub open spec fn contains_text(text: Seq<char>, part: Seq<char>) -> bool {
    exists|at: int| occurs_at(text, part, at)
}

/// A text holds whatever it ends with, right behind what comes before.
pub proof fn lemma_tail_occurs(before: Seq<char>, part: Seq<char>)
    ensures
        occurs_at(before + part, part, before.len() as int),
        contains_text(before + part, part),
{
    let text = before + part;
    let at = before.len() as int;
    assert(text.subrange(at, at + part.len()) =~= part);
}

} // verus!
