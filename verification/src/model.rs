//! Which model gets the request.

use vstd::prelude::*;

verus! {

/// The choice between two models: `large` for an estimate above the
/// threshold, `small` for every other.
pub open spec fn selection<T>(estimate: nat, threshold: nat, small: T, large: T) -> T {
    if estimate > threshold {
        large
    } else {
        small
    }
}

/// Picks the model for an input of the estimated size.
pub fn select_model<'a>(estimate: usize, threshold: usize, small: &'a str, large: &'a str) -> (r:
    &'a str)
    ensures
        r == selection(estimate as nat, threshold as nat, small, large),
{
    if estimate > threshold {
        large
    } else {
        small
    }
}

/// Raising the estimate never moves the selection from the large model back
/// to the small one.
pub proof fn lemma_selection_is_monotonic<T>(
    lower: nat,
    higher: nat,
    threshold: nat,
    small: T,
    large: T,
)
    requires
        lower <= higher,
        selection(lower, threshold, small, large) == large,
    ensures
        selection(higher, threshold, small, large) == large,
{
}

/// An estimate equal to the threshold selects the small model, the next one
/// the large model.
pub proof fn lemma_selection_at_threshold<T>(threshold: nat, small: T, large: T)
    ensures
        selection(threshold, threshold, small, large) == small,
        selection(threshold + 1, threshold, small, large) == large,
{
}

} // verus!
