//! Small helpers for composing the texts that the library hands out.

use vstd::prelude::*;

verus! {

/// `prefix`, `middle` and `suffix` joined into one text.
pub fn join3(prefix: &str, middle: &str, suffix: &str) -> (joined: String)
    ensures
        joined@ == prefix@ + middle@ + suffix@,
{
    let mut joined = String::from_str(prefix);
    joined.append(middle);
    joined.append(suffix);
    joined
}

} // verus!
