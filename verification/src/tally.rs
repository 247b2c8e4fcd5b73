//! Counting occurrences in a call log.
//!
//! The scripted ports that back the test suite record every service call
//! they receive in a log; their abstract call counters are occurrence
//! counts over that log.

use vstd::prelude::*;

verus! {

/// How many entries of `s` equal `x`.
pub open spec fn occurrences<T>(s: Seq<T>, x: T) -> nat
    decreases s.len(),
{
    if s.len() == 0 {
        0
    } else {
        occurrences(s.drop_last(), x) + (if s.last() == x {
            1nat
        } else {
            0nat
        })
    }
}

/// Appending one entry raises exactly that entry's count by one.
pub proof fn lemma_occurrences_push<T>(s: Seq<T>, y: T, x: T)
    ensures
        occurrences(s.push(y), x) == occurrences(s, x) + (if y == x {
            1nat
        } else {
            0nat
        }),
{
    assert(s.push(y).drop_last() =~= s);
    assert(s.push(y).last() == y);
}

} // verus!
