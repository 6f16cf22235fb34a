//! Deterministic workload generation: keys and index sequences drawn from a
//! seeded generator.

use crate::config::{Config, DELETE_SEED_SALT, QUERY_SEED_SALT};
use rand::rngs::StdRng;
use rand::{Rng, SeedableRng};
use vstd::prelude::*;

verus! {

/// The generator of the `rand` crate that all workloads are drawn from. Its
/// state is opaque; two generators are equal when they are in the same state.
/// The generator keeps no state outside itself and reads nothing from the
/// machine, so what it yields is fixed by its state for the version of the
/// crate that the library is built with.
#[verifier::external_type_specification]
#[verifier::external_body]
pub struct ExStdRng(StdRng);

/// The generator that `StdRng::seed_from_u64` builds from `seed`.
pub uninterp spec fn seeded_generator(seed: u64) -> StdRng;

/// What `random::<u64>()` yields on a generator in state `rng`: the word
/// drawn, and the state the generator is left in.
pub uninterp spec fn next_word(rng: StdRng) -> (u64, StdRng);

/// What `random_range(0..bound)` yields on a generator in state `rng`: the
/// index drawn, and the state the generator is left in.
pub uninterp spec fn next_below(rng: StdRng, bound: usize) -> (usize, StdRng);

/// Calls `StdRng::seed_from_u64`. The seed is expanded to the generator's
/// key by fixed arithmetic, so the state is a function of the seed alone.
#[verifier::external_body]
fn seed_from_u64(seed: u64) -> (rng: StdRng)
    ensures
        rng == seeded_generator(seed),
{
    StdRng::seed_from_u64(seed)
}

/// Calls `Rng::random::<u64>`, which takes the generator's next 64 bits. The
/// word and the state afterwards depend on the state before and nothing else.
#[verifier::external_body]
fn random_u64(rng: &mut StdRng) -> (word: u64)
    ensures
        (word, *final(rng)) == next_word(*old(rng)),
{
    rng.random::<u64>()
}

/// Calls `Rng::random_range` on `0..bound`, which panics on an empty range
/// and otherwise returns a value inside it. The value and the state
/// afterwards depend on the state before and on `bound`, nothing else.
#[verifier::external_body]
fn random_below(rng: &mut StdRng, bound: usize) -> (index: usize)
    requires
        bound > 0,
    ensures
        index < bound,
        (index, *final(rng)) == next_below(*old(rng), bound),
{
    rng.random_range(0..bound)
}

/// The state of `rng` after `count` words were drawn from it.
pub open spec fn after_words(rng: StdRng, count: nat) -> StdRng
    decreases count,
{
    if count == 0 {
        rng
    } else {
        next_word(after_words(rng, (count - 1) as nat)).1
    }
}

/// The state of `rng` after `count` indices below `bound` were drawn from it.
pub open spec fn after_indices(rng: StdRng, bound: usize, count: nat) -> StdRng
    decreases count,
{
    if count == 0 {
        rng
    } else {
        next_below(after_indices(rng, bound, (count - 1) as nat), bound).1
    }
}

/// The key at position `i` of the workload of `seed`.
pub open spec fn key_at(seed: u64, i: nat) -> u64 {
    next_word(after_words(seeded_generator(seed), i)).0
}

/// The index at position `i` of the sequence of `seed` below `bound`.
pub open spec fn index_at(seed: u64, bound: usize, i: nat) -> usize {
    next_below(after_indices(seeded_generator(seed), bound, i), bound).0
}

/// The first `n` keys of the workload of `seed`.
pub open spec fn key_stream(seed: u64, n: nat) -> Seq<u64> {
    Seq::new(n, |i: int| key_at(seed, i as nat))
}

/// The first `len` indices of the sequence of `seed` below `bound`.
pub open spec fn index_stream(seed: u64, bound: usize, len: nat) -> Seq<usize> {
    Seq::new(len, |i: int| index_at(seed, bound, i as nat))
}

/// Every index of a sequence lies below `bound`.
pub open spec fn all_below(indices: Seq<usize>, bound: nat) -> bool {
    forall|i: int| 0 <= i < indices.len() ==> (#[trigger] indices[i]) < bound
}

/// Generates `n` keys from `seed`. Equal arguments give equal keys.
pub fn gen_keys(n: usize, seed: u64) -> (keys: Vec<u64>)
    ensures
        keys@ == key_stream(seed, n as nat),
{
    let mut rng = seed_from_u64(seed);
    let mut keys: Vec<u64> = Vec::with_capacity(n);
    let mut i: usize = 0;
    while i < n
        invariant
            i <= n,
            rng == after_words(seeded_generator(seed), i as nat),
            keys@ == key_stream(seed, i as nat),
        decreases n - i,
    {
        let word: u64 = random_u64(&mut rng);
        keys.push(word);
        i += 1;
    }
    keys
}

/// Generates `len` indices in `[0, bound)` from `seed`. Equal arguments give
/// equal indices.
pub fn gen_indices(len: usize, bound: usize, seed: u64) -> (indices: Vec<usize>)
    requires
        bound > 0,
    ensures
        indices@ == index_stream(seed, bound, len as nat),
        all_below(indices@, bound as nat),
{
    let mut rng = seed_from_u64(seed);
    let mut indices: Vec<usize> = Vec::with_capacity(len);
    let mut i: usize = 0;
    while i < len
        invariant
            i <= len,
            bound > 0,
            rng == after_indices(seeded_generator(seed), bound, i as nat),
            indices@ == index_stream(seed, bound, i as nat),
            all_below(indices@, bound as nat),
        decreases len - i,
    {
        let index: usize = random_below(&mut rng, bound);
        indices.push(index);
        i += 1;
    }
    indices
}

/// The seed of the query indices of a run seeded with `seed`.
pub open spec fn query_seed(seed: u64) -> u64 {
    seed ^ QUERY_SEED_SALT
}

/// The seed of the delete indices of a run seeded with `seed`.
pub open spec fn delete_seed(seed: u64) -> u64 {
    seed ^ DELETE_SEED_SALT
}

/// The keys that a sequence of indices picks, in order.
pub open spec fn selected(keys: Seq<u64>, indices: Seq<usize>) -> Seq<u64> {
    Seq::new(indices.len(), |j: int| keys[indices[j] as int])
}

/// The keys that a run of `cfg` inserts, in insertion order.
pub open spec fn run_keys(cfg: Config) -> Seq<u64> {
    key_stream(cfg.seed, cfg.n as nat)
}

/// The keys that a run of `cfg` looks up, in order.
pub open spec fn run_queries(cfg: Config) -> Seq<u64> {
    selected(run_keys(cfg), index_stream(query_seed(cfg.seed), cfg.n, cfg.q as nat))
}

/// The keys that a run of `cfg` deletes, in order.
pub open spec fn run_deletes(cfg: Config) -> Seq<u64> {
    selected(run_keys(cfg), index_stream(delete_seed(cfg.seed), cfg.n, (cfg.n / 2) as nat))
}

/// Everything a run works on, generated before any phase is timed.
#[derive(Debug)]
pub struct Workload {
    /// The keys to insert, in insertion order.
    pub keys: Vec<u64>,
    /// Positions in `keys` of the keys to look up, in order.
    pub query_idx: Vec<usize>,
    /// Positions in `keys` of the keys to delete, in order.
    pub delete_idx: Vec<usize>,
}

impl Workload {
    /// Every index points into `keys`.
    pub open spec fn wf(&self) -> bool {
        &&& all_below(self.query_idx@, self.keys@.len())
        &&& all_below(self.delete_idx@, self.keys@.len())
    }

    /// The workload that belongs to `cfg`: `n` keys from the run seed, `q`
    /// query indices from the query seed, and `n / 2` delete indices from the
    /// delete seed.
    pub open spec fn belongs_to(&self, cfg: Config) -> bool {
        &&& self.keys@ == key_stream(cfg.seed, cfg.n as nat)
        &&& self.query_idx@ == index_stream(query_seed(cfg.seed), cfg.n, cfg.q as nat)
        &&& self.delete_idx@ == index_stream(delete_seed(cfg.seed), cfg.n, (cfg.n / 2) as nat)
    }

    /// The keys that the query phase looks up, in order.
    pub open spec fn queries(&self) -> Seq<u64> {
        selected(self.keys@, self.query_idx@)
    }

    /// The keys that the delete phase deletes, in order.
    pub open spec fn deletes(&self) -> Seq<u64> {
        selected(self.keys@, self.delete_idx@)
    }

    /// The generate phase: three calls of the generator with three seeds.
    pub fn generate(cfg: &Config) -> (load: Workload)
        requires
            cfg.n > 0,
        ensures
            load.belongs_to(*cfg),
            load.wf(),
            load.keys@ == run_keys(*cfg),
            load.queries() == run_queries(*cfg),
            load.deletes() == run_deletes(*cfg),
    {
        let keys = gen_keys(cfg.n, cfg.seed);
        let query_idx = gen_indices(cfg.q, cfg.n, cfg.seed ^ QUERY_SEED_SALT);
        let delete_idx = gen_indices(cfg.n / 2, cfg.n, cfg.seed ^ DELETE_SEED_SALT);
        Workload { keys, query_idx, delete_idx }
    }
}

/// A longer run of keys starts with the shorter run of the same seed.
pub proof fn lemma_keys_extend(seed: u64, shorter: nat, longer: nat)
    requires
        shorter <= longer,
    ensures
        key_stream(seed, longer).take(shorter as int) == key_stream(seed, shorter),
{
    assert(key_stream(seed, longer).take(shorter as int) =~= key_stream(seed, shorter));
}

/// A longer run of indices starts with the shorter run of the same seed and
/// bound.
pub proof fn lemma_indices_extend(seed: u64, bound: usize, shorter: nat, longer: nat)
    requires
        shorter <= longer,
    ensures
        index_stream(seed, bound, longer).take(shorter as int) == index_stream(
            seed,
            bound,
            shorter,
        ),
{
    assert(index_stream(seed, bound, longer).take(shorter as int) =~= index_stream(
        seed,
        bound,
        shorter,
    ));
}

/// The query indices, the delete indices and the keys of one run are drawn
/// from three different seeds, whatever the run seed is.
pub proof fn lemma_salted_seeds_differ(seed: u64)
    ensures
        query_seed(seed) != delete_seed(seed),
        query_seed(seed) != seed,
        delete_seed(seed) != seed,
{
    assert(seed ^ 0x000A_11CEu64 != seed ^ 0x0BAD_5EEDu64) by (bit_vector);
    assert(seed ^ 0x000A_11CEu64 != seed) by (bit_vector);
    assert(seed ^ 0x0BAD_5EEDu64 != seed) by (bit_vector);
}

} // verus!
