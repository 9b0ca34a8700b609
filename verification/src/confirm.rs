//! The answer of the user to a question that takes yes or no.

use vstd::prelude::*;
use crate::text::{to_chars, trim, trimmed};

verus! {

/// The answer says yes: without the white space around it, it is `y` or
/// `yes`, in capital or small letters.
pub open spec fn is_yes(answer: Seq<char>) -> bool {
    let t = trim(answer);
    ||| t.len() == 1 && (t[0] == 'y' || t[0] == 'Y')
    ||| t.len() == 3 && (t[0] == 'y' || t[0] == 'Y') && (t[1] == 'e' || t[1] == 'E') && (t[2]
        == 's' || t[2] == 'S')
}

/// Whether the answer says yes.  Every other answer counts as no.
pub fn is_affirmative(answer: &str) -> (yes: bool)
    ensures
        yes == is_yes(answer@),
{
    let t = trimmed(&to_chars(answer));
    if t.len() == 1 {
        t[0] == 'y' || t[0] == 'Y'
    } else if t.len() == 3 {
        (t[0] == 'y' || t[0] == 'Y') && (t[1] == 'e' || t[1] == 'E') && (t[2] == 's' || t[2]
            == 'S')
    } else {
        false
    }
}

} // verus!
