//! The shuffle order: a permutation of the catalog's positions, drawn once
//! when a worker starts, and the mapping from a logical position to a track.

use rand::seq::SliceRandom;
use vstd::prelude::*;
use vstd::seq_lib::{to_multiset_contains, to_multiset_len};
use vstd::set_lib::lemma_subset_equality;

verus! {

/// Whether `order` is a permutation of the positions `0..count`: it has
/// `count` entries, each of them is a position of the catalog, and none
/// occurs twice.
pub open spec fn is_permutation(order: Seq<usize>, count: nat) -> bool {
    &&& order.len() == count
    &&& forall|i: int| 0 <= i < order.len() ==> #[trigger] order[i] < count
    &&& order.no_duplicates()
}

/// The positions `0..count` in their natural order.
pub open spec fn spec_identity_order(count: nat) -> Seq<usize> {
    Seq::new(count, |i: int| i as usize)
}

/// The track that the logical position `logical_index` stands for: the
/// position itself while shuffle is off, its entry in `order` while it is on.
pub open spec fn spec_resolve(logical_index: int, shuffle_enabled: bool, order: Seq<usize>) -> int {
    if shuffle_enabled {
        order[logical_index] as int
    } else {
        logical_index
    }
}

/// The positions below `count`, as a set.
pub open spec fn spec_positions(count: nat) -> Set<usize> {
    Set::new(|v: usize| v < count)
}

/// Maps a logical position to the track to play.
pub fn resolve(logical_index: usize, shuffle_enabled: bool, order: &Vec<usize>) -> (physical_index:
    usize)
    requires
        shuffle_enabled ==> logical_index < order@.len(),
    ensures
        physical_index == spec_resolve(logical_index as int, shuffle_enabled, order@),
{
    if shuffle_enabled {
        order[logical_index]
    } else {
        logical_index
    }
}

/// Calls `rand::seq::SliceRandom::shuffle` on the vector with the thread's
/// generator from `rand::thread_rng`. The shuffle only swaps entries, so the
/// vector afterwards holds the same entries as before, each as often as
/// before; in which order is left open. Creating the generator fails only
/// where the operating system cannot supply entropy.
#[verifier::external_body]
fn shuffle_in_place(order: &mut Vec<usize>)
    ensures
        final(order)@.to_multiset() == old(order)@.to_multiset(),
{
    order.shuffle(&mut rand::thread_rng());
}

/// The positions `0..count` in their natural order.
pub fn identity_order(count: usize) -> (order: Vec<usize>)
    ensures
        order@ == spec_identity_order(count as nat),
        is_permutation(order@, count as nat),
{
    let mut order: Vec<usize> = Vec::new();
    let mut i: usize = 0;
    while i < count
        invariant
            i <= count,
            order@ == spec_identity_order(i as nat),
        decreases count - i,
    {
        order.push(i);
        i = i + 1;
    }
    proof {
        lemma_identity_is_permutation(count as nat);
    }
    order
}

/// Draws the shuffle order for a catalog of `count` tracks: a permutation of
/// `0..count` picked at random.
pub fn generate(count: usize) -> (order: Vec<usize>)
    ensures
        is_permutation(order@, count as nat),
{
    let mut order = identity_order(count);
    shuffle_in_place(&mut order);
    proof {
        lemma_rearrangement_is_permutation(order@, count as nat);
    }
    order
}

/// Tells whether `order` is a permutation of `0..count`.
pub fn check_permutation(order: &Vec<usize>, count: usize) -> (valid: bool)
    ensures
        valid == is_permutation(order@, count as nat),
{
    if order.len() != count {
        return false;
    }
    let mut seen: Vec<bool> = Vec::new();
    let mut k: usize = 0;
    while k < count
        invariant
            k <= count,
            seen@.len() == k,
            forall|v: int| 0 <= v < k ==> !#[trigger] seen@[v],
        decreases count - k,
    {
        seen.push(false);
        k = k + 1;
    }
    let mut i: usize = 0;
    while i < count
        invariant
            i <= count,
            order@.len() == count,
            seen@.len() == count,
            forall|j: int| 0 <= j < i ==> #[trigger] order@[j] < count,
            forall|j: int, l: int| 0 <= j < l < i ==> order@[j] != order@[l],
            forall|v: int|
                0 <= v < count ==> (#[trigger] seen@[v] <==> exists|j: int|
                    0 <= j < i && order@[j] == v),
        decreases count - i,
    {
        let v = order[i];
        if v >= count {
            return false;
        }
        if seen[v] {
            return false;
        }
        seen.set(v, true);
        i = i + 1;
    }
    true
}

/// The natural order of `0..count` is a permutation of `0..count`.
pub proof fn lemma_identity_is_permutation(count: nat)
    requires
        count <= usize::MAX,
    ensures
        is_permutation(spec_identity_order(count), count),
{
}

/// A sequence that holds the same entries as the natural order of `0..count`,
/// each as often, is a permutation of `0..count`.
pub proof fn lemma_rearrangement_is_permutation(order: Seq<usize>, count: nat)
    requires
        count <= usize::MAX,
        order.to_multiset() == spec_identity_order(count).to_multiset(),
    ensures
        is_permutation(order, count),
{
    let identity = spec_identity_order(count);
    to_multiset_len(order);
    to_multiset_len(identity);
    assert forall|i: int| 0 <= i < order.len() implies #[trigger] order[i] < count by {
        to_multiset_contains(order, order[i]);
        to_multiset_contains(identity, order[i]);
    }
    identity.lemma_multiset_has_no_duplicates();
    order.lemma_multiset_has_no_duplicates_conv();
}

/// There are exactly `count` positions below `count`.
pub proof fn lemma_positions_len(count: nat)
    requires
        count <= usize::MAX + 1,
    ensures
        spec_positions(count).finite(),
        spec_positions(count).len() == count,
    decreases count,
{
    if count == 0 {
        assert(spec_positions(count) =~= Set::empty());
    } else {
        lemma_positions_len((count - 1) as nat);
        assert(spec_positions((count - 1) as nat).insert((count - 1) as usize) =~= spec_positions(
            count,
        ));
    }
}

/// A permutation of `0..count` reaches every position: each track of the
/// catalog is the entry of some logical position.
pub proof fn lemma_permutation_is_onto(order: Seq<usize>, count: nat, target: usize)
    requires
        is_permutation(order, count),
        target < count,
    ensures
        exists|i: int| 0 <= i < order.len() && order[i] == target,
{
    if count > usize::MAX + 1 {
        // More entries than there are values: impossible without a repeat.
        lemma_positions_len((usize::MAX + 1) as nat);
        let all = spec_positions((usize::MAX + 1) as nat);
        order.unique_seq_to_set();
        vstd::set_lib::lemma_len_subset(order.to_set(), all);
    } else {
        lemma_positions_len(count);
        order.unique_seq_to_set();
        assert(order.to_set().subset_of(spec_positions(count))) by {
            assert forall|v: usize| order.to_set().contains(v) implies spec_positions(
                count,
            ).contains(v) by {
                let i = choose|i: int| 0 <= i < order.len() && order[i] == v;
                assert(order[i] < count);
            }
        }
        lemma_subset_equality(order.to_set(), spec_positions(count));
        assert(spec_positions(count).contains(target));
    }
}

} // verus!
