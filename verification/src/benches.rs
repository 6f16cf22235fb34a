//! The benchmark runners, one per strategy, and the model they share: which
//! keys a phase touches, what a lookup finds, and what a run reports.

use crate::data::{all_below, selected};
use vstd::prelude::*;


verus! {

/// Calls `std::hint::black_box`, an identity function that the optimiser
/// cannot see through.
#[verifier::external_body]
pub(crate) fn keep(value: u64) -> (kept: u64)
    ensures
        kept == value,
{
    std::hint::black_box(value)
}

/// How many of the lookups of `targets` find their key in `held`.
pub open spec fn hits(held: Map<u64, u64>, targets: Seq<u64>) -> nat
    decreases targets.len(),
{
    if targets.len() == 0 {
        0
    } else {
        hits(held, targets.drop_last()) + if held.contains_key(targets.last()) {
            1nat
        } else {
            0nat
        }
    }
}

/// The values found by the lookups of `targets` in `held`, folded with XOR.
/// A lookup that misses leaves the fold as it is.
pub open spec fn checksum(held: Map<u64, u64>, targets: Seq<u64>) -> u64
    decreases targets.len(),
{
    if targets.len() == 0 {
        0
    } else if held.contains_key(targets.last()) {
        checksum(held, targets.drop_last()) ^ held[targets.last()]
    } else {
        checksum(held, targets.drop_last())
    }
}

/// What the query phase observed.
#[derive(Clone, Copy, Debug, PartialEq, Eq, Structural)]
pub struct QueryOutcome {
    /// Number of lookups that found their key.
    pub hits: usize,
    /// XOR of the values found.
    pub checksum: u64,
}

/// What one benchmark run reports.
#[derive(Clone, Copy, Debug)]
pub struct BenchReport {
    /// Duration of the insert phase in milliseconds.
    pub insert_ms: u128,
    /// Duration of the query phase in milliseconds.
    pub query_ms: u128,
    /// Duration of the delete phase in milliseconds.
    pub remove_ms: u128,
    /// Resident memory right after the insert phase, in mebibytes.
    pub mem_after_insert: u64,
    /// Largest resident memory observed during the run, in mebibytes.
    pub mem_peak: u64,
    /// Number of lookups of the query phase that found their key.
    pub hits: usize,
    /// Number of deletions that found their key.
    pub removed: usize,
}

/// Every lookup of a key that is held counts as a hit.
pub proof fn lemma_all_hit(held: Map<u64, u64>, targets: Seq<u64>)
    requires
        forall|j: int| 0 <= j < targets.len() ==> held.contains_key(#[trigger] targets[j]),
    ensures
        hits(held, targets) == targets.len(),
    decreases targets.len(),
{
    if targets.len() > 0 {
        let front = targets.drop_last();
        assert forall|j: int| 0 <= j < front.len() implies held.contains_key(
            #[trigger] front[j],
        ) by {
            assert(front[j] == targets[j]);
        }
        lemma_all_hit(held, front);
    }
}

/// What a map strategy holds after the insert phase: every key that was
/// inserted, mapped to itself XOR `mask`. A key inserted twice is held once.
pub open spec fn stored(keys: Seq<u64>, mask: u64) -> Map<u64, u64> {
    Map::new(|k: u64| keys.contains(k), |k: u64| k ^ mask)
}

/// What a map strategy holds after the deletions of `targets`: every entry
/// whose key is not among them.
pub open spec fn without(held: Map<u64, u64>, targets: Seq<u64>) -> Map<u64, u64> {
    held.remove_keys(targets.to_set())
}

/// How many of the deletions of `targets`, in order, find their key in a map
/// that started as `held`.
pub open spec fn map_removals(held: Map<u64, u64>, targets: Seq<u64>) -> nat
    decreases targets.len(),
{
    if targets.len() == 0 {
        0
    } else {
        map_removals(held, targets.drop_last()) + if without(
            held,
            targets.drop_last(),
        ).contains_key(targets.last()) {
            1nat
        } else {
            0nat
        }
    }
}

/// Inserting the next key extends what is stored by one entry.
pub proof fn lemma_stored_step(keys: Seq<u64>, i: int, mask: u64)
    requires
        0 <= i < keys.len(),
    ensures
        stored(keys.take(i + 1), mask) == stored(keys.take(i), mask).insert(
            keys[i],
            keys[i] ^ mask,
        ),
        stored(keys.take(0), mask) == Map::<u64, u64>::empty(),
        stored(keys.take(keys.len() as int), mask) == stored(keys, mask),
{
    let shorter = keys.take(i);
    let longer = keys.take(i + 1);
    assert(longer =~= shorter.push(keys[i]));
    assert forall|k: u64| longer.contains(k) <==> (shorter.contains(k) || k == keys[i]) by {
        if longer.contains(k) {
            let at = choose|at: int| 0 <= at < longer.len() && longer[at] == k;
            if at < i {
                assert(shorter[at] == k);
            }
        }
        if shorter.contains(k) {
            let at = choose|at: int| 0 <= at < shorter.len() && shorter[at] == k;
            assert(longer[at] == k);
        }
        if k == keys[i] {
            assert(longer[i] == k);
        }
    }
    assert(stored(longer, mask) =~= stored(shorter, mask).insert(keys[i], keys[i] ^ mask));
    assert(stored(keys.take(0), mask) =~= Map::<u64, u64>::empty());
    assert(keys.take(keys.len() as int) =~= keys);
}

/// Deleting the next key takes one more entry out.
pub proof fn lemma_without_step(held: Map<u64, u64>, targets: Seq<u64>, j: int)
    requires
        0 <= j < targets.len(),
    ensures
        without(held, targets.take(j + 1)) == without(held, targets.take(j)).remove(targets[j]),
        without(held, targets.take(0)) == held,
        without(held, targets.take(targets.len() as int)) == without(held, targets),
{
    let shorter = targets.take(j);
    let longer = targets.take(j + 1);
    assert forall|k: u64| longer.contains(k) <==> (shorter.contains(k) || k == targets[j]) by {
        if longer.contains(k) {
            let at = choose|at: int| 0 <= at < longer.len() && longer[at] == k;
            if at < j {
                assert(shorter[at] == k);
            }
        }
        if shorter.contains(k) {
            let at = choose|at: int| 0 <= at < shorter.len() && shorter[at] == k;
            assert(longer[at] == k);
        }
        if k == targets[j] {
            assert(longer[j] == k);
        }
    }
    assert(without(held, longer) =~= without(held, shorter).remove(targets[j]));
    assert(without(held, targets.take(0)) =~= held);
    assert(targets.take(targets.len() as int) =~= targets);
}

/// After the insert phase every key of the workload is held, so every lookup
/// of keys picked from the workload is a hit.
pub proof fn lemma_stored_keys_are_found(keys: Seq<u64>, indices: Seq<usize>, mask: u64)
    requires
        all_below(indices, keys.len()),
    ensures
        forall|i: int| 0 <= i < keys.len() ==> stored(keys, mask).contains_key(#[trigger] keys[i]),
        hits(stored(keys, mask), selected(keys, indices)) == indices.len(),
{
    assert forall|i: int| 0 <= i < keys.len() implies stored(keys, mask).contains_key(
        #[trigger] keys[i],
    ) by {
        assert(keys.contains(keys[i]));
    }
    let targets = selected(keys, indices);
    assert forall|j: int| 0 <= j < targets.len() implies stored(keys, mask).contains_key(
        #[trigger] targets[j],
    ) by {
        assert(targets[j] == keys[indices[j] as int]);
    }
    lemma_all_hit(stored(keys, mask), targets);
}

/// The number of hits depends only on which of the looked-up keys are held:
/// two collections that hold the same of them give the same hits.
pub proof fn lemma_same_hits(one: Map<u64, u64>, other: Map<u64, u64>, targets: Seq<u64>)
    requires
        forall|j: int|
            0 <= j < targets.len() ==> (one.contains_key(#[trigger] targets[j])
                <==> other.contains_key(targets[j])),
    ensures
        hits(one, targets) == hits(other, targets),
    decreases targets.len(),
{
    if targets.len() > 0 {
        let front = targets.drop_last();
        assert forall|j: int| 0 <= j < front.len() implies (one.contains_key(#[trigger] front[j])
            <==> other.contains_key(front[j])) by {
            assert(front[j] == targets[j]);
        }
        lemma_same_hits(one, other, front);
        assert(targets.last() == targets[targets.len() - 1]);
    }
}

/// The mask changes the values that a map strategy stores, not the keys: the
/// deletions find their keys under one mask as under another.
pub proof fn lemma_removals_ignore_mask(keys: Seq<u64>, targets: Seq<u64>, one: u64, other: u64)
    ensures
        map_removals(stored(keys, one), targets) == map_removals(stored(keys, other), targets),
    decreases targets.len(),
{
    if targets.len() > 0 {
        lemma_removals_ignore_mask(keys, targets.drop_last(), one, other);
    }
}

} // verus!
