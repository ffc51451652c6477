//! Positions in a catalog of `count` tracks: stepping forward and backward
//! with wraparound, and what repeated stepping visits.

use vstd::arithmetic::div_mod::{
    lemma_add_mod_noop, lemma_fundamental_div_mod_converse, lemma_mod_self_0, lemma_small_mod,
};
use vstd::prelude::*;

verus! {

/// The position that follows `index` in a cycle of `count` positions.
pub open spec fn spec_next_index(index: int, count: int) -> int {
    if index + 1 >= count {
        0
    } else {
        index + 1
    }
}

/// The position that precedes `index` in a cycle of `count` positions.
pub open spec fn spec_previous_index(index: int, count: int) -> int {
    if index <= 0 {
        count - 1
    } else {
        index - 1
    }
}

/// The position reached from `index` by stepping forward `steps` times.
pub open spec fn spec_advance(index: int, count: int, steps: nat) -> int
    decreases steps,
{
    if steps == 0 {
        index
    } else {
        spec_next_index(spec_advance(index, count, (steps - 1) as nat), count)
    }
}

/// Whether `target` is among the first `count` positions that stepping forward
/// from `index` visits.
pub open spec fn spec_reached_within_cycle(index: int, count: int, target: int) -> bool {
    exists|k: nat| k < count && #[trigger] spec_advance(index, count, k) == target
}

/// Steps one position forward, wrapping from the last position to the first.
pub fn next_index(index: usize, count: usize) -> (next: usize)
    requires
        index < count,
    ensures
        next == spec_next_index(index as int, count as int),
        next < count,
{
    if index >= count - 1 {
        0
    } else {
        index + 1
    }
}

/// Steps one position backward, wrapping from the first position to the last.
pub fn previous_index(index: usize, count: usize) -> (previous: usize)
    requires
        index < count,
    ensures
        previous == spec_previous_index(index as int, count as int),
        previous < count,
{
    if index == 0 {
        count - 1
    } else {
        index - 1
    }
}

/// Stepping forward is adding one modulo `count`, stepping backward is
/// subtracting one modulo `count`, and both stay inside the catalog.
pub proof fn lemma_steps_are_modular(index: int, count: int)
    requires
        0 <= index < count,
    ensures
        0 <= spec_next_index(index, count) < count,
        0 <= spec_previous_index(index, count) < count,
        spec_next_index(index, count) == (index + 1) % count,
        spec_previous_index(index, count) == (index + count - 1) % count,
{
    if index + 1 == count {
        lemma_mod_self_0(count);
    } else {
        lemma_small_mod((index + 1) as nat, count as nat);
    }
    if index == 0 {
        lemma_small_mod((count - 1) as nat, count as nat);
    } else {
        lemma_fundamental_div_mod_converse(index + count - 1, count, 1, index - 1);
    }
}

/// Stepping forward from the last position wraps to the first, and stepping
/// backward from the first position wraps to the last.
pub proof fn lemma_wraparound(count: int)
    requires
        count > 0,
    ensures
        spec_next_index(count - 1, count) == 0,
        spec_previous_index(0, count) == count - 1,
{
}

/// A step forward followed by a step backward, or a step backward followed by
/// a step forward, returns to the position it started from.
pub proof fn lemma_next_previous_inverse(index: int, count: int)
    requires
        0 <= index < count,
    ensures
        spec_previous_index(spec_next_index(index, count), count) == index,
        spec_next_index(spec_previous_index(index, count), count) == index,
{
}

/// Within one turn of the cycle, `steps` steps forward from `index` lead to
/// `index + steps`, less `count` once the end of the catalog is passed.
pub proof fn lemma_advance_within_cycle(index: int, count: int, steps: nat)
    requires
        0 <= index < count,
        steps <= count,
    ensures
        spec_advance(index, count, steps) == if index + steps < count {
            index + steps
        } else {
            index + steps - count
        },
    decreases steps,
{
    if steps > 0 {
        lemma_advance_within_cycle(index, count, (steps - 1) as nat);
    }
}

/// Any number of steps forward from `index` leads to `index + steps` modulo
/// `count`.
pub proof fn lemma_advance_is_modular(index: int, count: int, steps: nat)
    requires
        0 <= index < count,
    ensures
        0 <= spec_advance(index, count, steps) < count,
        spec_advance(index, count, steps) == (index + steps) % count,
    decreases steps,
{
    if steps == 0 {
        lemma_small_mod(index as nat, count as nat);
    } else {
        let before = spec_advance(index, count, (steps - 1) as nat);
        lemma_advance_is_modular(index, count, (steps - 1) as nat);
        lemma_steps_are_modular(before, count);
        lemma_add_mod_noop(index + steps - 1, 1, count);
        if count > 1 {
            lemma_small_mod(1, count as nat);
        }
    }
}

/// Repeated steps forward visit every position of the catalog once before any
/// position comes again: the first `count` positions visited are pairwise
/// different, each position is among them, and the step after them returns to
/// the start.
pub proof fn lemma_next_cycles_through_all(index: int, count: int)
    requires
        0 <= index < count,
    ensures
        forall|j: nat, k: nat|
            j < k < count ==> spec_advance(index, count, j) != spec_advance(index, count, k),
        forall|target: int|
            0 <= target < count ==> #[trigger] spec_reached_within_cycle(index, count, target),
        spec_advance(index, count, count as nat) == index,
{
    assert forall|j: nat, k: nat| j < k < count implies spec_advance(index, count, j)
        != spec_advance(index, count, k) by {
        lemma_advance_within_cycle(index, count, j);
        lemma_advance_within_cycle(index, count, k);
    }
    assert forall|target: int| 0 <= target < count implies #[trigger] spec_reached_within_cycle(
        index,
        count,
        target,
    ) by {
        let k: nat = if target >= index {
            (target - index) as nat
        } else {
            (target - index + count) as nat
        };
        lemma_advance_within_cycle(index, count, k);
    }
    lemma_advance_within_cycle(index, count, count as nat);
}

} // verus!
