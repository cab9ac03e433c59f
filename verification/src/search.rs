//! Finding the first position in a list at which something holds.

use vstd::prelude::*;

verus! {

/// Position of the first `true`, if there is one.
pub open spec fn first_true(flags: Seq<bool>) -> Option<int>
    decreases flags.len(),
{
    if flags.len() == 0 {
        None
    } else if flags[0] {
        Some(0)
    } else {
        match first_true(flags.drop_first()) {
            Some(i) => Some(i + 1),
            None => None,
        }
    }
}

/// Whether `found` is what a search for the first `true` must give.
pub open spec fn is_first_true(flags: Seq<bool>, found: Option<int>) -> bool {
    match found {
        Some(i) => 0 <= i < flags.len() && flags[i] && forall|j: int| 0 <= j < i ==> !flags[j],
        None => forall|j: int| 0 <= j < flags.len() ==> !flags[j],
    }
}

/// `first_true` finds a position that holds `true` with only `false`
/// before it, and finds none only where every flag is `false`.
pub proof fn lemma_first_true(flags: Seq<bool>)
    ensures
        is_first_true(flags, first_true(flags)),
    decreases flags.len(),
{
    if flags.len() > 0 && !flags[0] {
        let rest = flags.drop_first();
        lemma_first_true(rest);
        match first_true(rest) {
            Some(i) => {
                assert forall|j: int| 0 <= j < i + 1 implies !flags[j] by {
                    if j > 0 {
                        assert(!rest[j - 1]);
                    }
                }
            },
            None => {
                assert forall|j: int| 0 <= j < flags.len() implies !flags[j] by {
                    if j > 0 {
                        assert(!rest[j - 1]);
                    }
                }
            },
        }
    }
}

/// Only one answer fits `is_first_true`, and `first_true` gives it.
pub proof fn lemma_first_true_is(flags: Seq<bool>, found: Option<int>)
    requires
        is_first_true(flags, found),
    ensures
        first_true(flags) == found,
{
    lemma_first_true(flags);
    match (first_true(flags), found) {
        (Some(a), Some(b)) => {
            if a < b {
                assert(!flags[a]);
            }
            if b < a {
                assert(!flags[b]);
            }
        },
        (Some(a), None) => {
            assert(!flags[a]);
        },
        (None, Some(b)) => {
            assert(!flags[b]);
        },
        (None, None) => {},
    }
}

} // verus!
