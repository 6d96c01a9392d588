//! Counters that step by one and wrap past the largest value, as an atomic
//! increment on `usize` does.

use vstd::arithmetic::div_mod::{
    lemma_add_mod_noop, lemma_mod_bound, lemma_mod_self_0, lemma_small_mod,
};
use vstd::prelude::*;

verus! {

/// The value that follows `value`: one more, or zero after the largest.
pub open spec fn successor(value: usize) -> usize {
    if value == usize::MAX {
        0
    } else {
        (value + 1) as usize
    }
}

/// The value that a counter holds after `steps` increments from `start`.
pub open spec fn advanced(start: usize, steps: nat) -> usize {
    ((start + steps) % (usize::MAX + 1)) as usize
}

/// Increments a counter by one step.
pub fn increment(value: usize) -> (next: usize)
    ensures
        next == successor(value),
{
    value.wrapping_add(1)
}

/// A counter that has not been incremented holds its start value.
pub proof fn lemma_advanced_zero(start: usize)
    ensures
        advanced(start, 0) == start,
{
    lemma_small_mod(start as nat, (usize::MAX + 1) as nat);
}

/// One increment moves the counter one step.
pub proof fn lemma_advanced_successor(start: usize, steps: nat)
    ensures
        successor(advanced(start, steps)) == advanced(start, steps + 1),
{
    let space = usize::MAX + 1;
    let at = (start + steps) % space;
    lemma_mod_bound(start + steps, space);
    lemma_add_mod_noop(start + steps, 1, space);
    lemma_small_mod(1, space as nat);
    if at == usize::MAX {
        lemma_mod_self_0(space);
    } else {
        lemma_small_mod((at + 1) as nat, space as nat);
    }
}

/// While the sum fits, a counter holds its start value plus the number of
/// increments.
pub proof fn lemma_advanced_without_wrap(start: usize, steps: nat)
    requires
        start + steps <= usize::MAX,
    ensures
        advanced(start, steps) == start + steps,
{
    lemma_small_mod((start + steps) as nat, (usize::MAX + 1) as nat);
}

} // verus!
