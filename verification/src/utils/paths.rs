//! Paths that may not exist yet.

use vstd::prelude::*;

verus! {

/// Position `k` holds the first answer of the list.
pub open spec fn first_answer<T>(answers: Seq<Option<T>>, k: int) -> bool {
    0 <= k < answers.len() && answers[k] is Some && forall|j: int|
        0 <= j < k ==> (#[trigger] answers[j]) is None
}

/// Chooses the canonical form of a path of which only a part may exist.
///
/// The caller asks the file system for each ancestor of the path in turn,
/// the path itself first, and lists what it learned: for an ancestor that
/// exists, its canonical form with the rest of the path behind it. The
/// nearest ancestor that exists decides, so the position of the first
/// answer is the result. Where no ancestor exists there is none.
#[must_use]
pub fn canonicalize_unexistent<T>(answers: &Vec<Option<T>>) -> (r: Option<usize>)
    ensures
        r is None <==> forall|j: int| 0 <= j < answers.len() ==> (#[trigger] answers@[j]) is None,
        r is Some ==> first_answer(answers@, r->0 as int),
{
    let mut i: usize = 0;
    while i < answers.len()
        invariant
            i <= answers.len(),
            forall|j: int| 0 <= j < i ==> (#[trigger] answers@[j]) is None,
        decreases answers.len() - i,
    {
        match &answers[i] {
            Some(_) => {
                return Some(i);
            },
            None => {},
        }
        i = i + 1;
    }
    None
}

} // verus!
