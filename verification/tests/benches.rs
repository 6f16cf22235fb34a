use map_bench::benches::btreemap::bench_btreemap;
use map_bench::benches::hashmap::bench_hashmap;
use map_bench::benches::vec_sorted::{bench_vec_sorted, SortedVec};
use map_bench::benches::{btreemap, hashmap, vec_sorted};
use map_bench::config::{Config, BT_MASK, HM_MASK};
use map_bench::data::Workload;
use map_bench::mem::MemSampler;
use std::collections::{BTreeMap, HashMap};

fn pid() -> u32 {
    sysinfo::get_current_pid().expect("a process id").as_u32()
}

fn filled_hash(keys: &Vec<u64>, step: usize, mem: &mut MemSampler) -> HashMap<u64, u64> {
    let mut map = HashMap::new();
    hashmap::insert_phase(&mut map, keys, step, mem);
    map
}

fn filled_tree(keys: &Vec<u64>, step: usize, mem: &mut MemSampler) -> BTreeMap<u64, u64> {
    let mut map = BTreeMap::new();
    btreemap::insert_phase(&mut map, keys, step, mem);
    map
}

fn is_ascending(items: &[u64]) -> bool {
    items.windows(2).all(|pair| pair[0] <= pair[1])
}

#[test]
fn scenario_small_run_gives_the_same_hits_and_misses() {
    let cfg = Config::new(10, 5, 7);
    let load = Workload::generate(&cfg);
    assert_eq!(load.keys.len(), 10);
    assert_eq!(load.query_idx.len(), 5);
    assert_eq!(load.delete_idx.len(), 5);
    let mut mem = MemSampler::new_current(pid());

    let mut hash = filled_hash(&load.keys, cfg.step, &mut mem);
    let mut tree = filled_tree(&load.keys, cfg.step, &mut mem);
    let mut array = SortedVec::build(&load.keys, cfg.step, &mut mem);

    for &at in &load.query_idx {
        let key = load.keys[at];
        assert_eq!(hash.get(&key), Some(&(key ^ HM_MASK)));
        assert_eq!(tree.get(&key), Some(&(key ^ BT_MASK)));
        assert_eq!(array.get(key), Some(key));
    }

    let gone_hash = hashmap::delete_phase(&mut hash, &load.keys, &load.delete_idx);
    let gone_tree = btreemap::delete_phase(&mut tree, &load.keys, &load.delete_idx);
    let gone_array = vec_sorted::delete_phase(&mut array, &load.keys, &load.delete_idx);
    assert_eq!(gone_hash, gone_tree);
    assert_eq!(gone_hash, gone_array);

    let mut misses = 0;
    for &at in &load.query_idx {
        let key = load.keys[at];
        let found = hash.contains_key(&key);
        assert_eq!(tree.contains_key(&key), found);
        assert_eq!(array.get(key).is_some(), found);
        let deleted = load.delete_idx.iter().any(|&d| load.keys[d] == key);
        assert_eq!(found, !deleted);
        if !found {
            misses += 1;
        }
    }
    let hash_after = hashmap::query_phase(&hash, &load.keys, &load.query_idx);
    let tree_after = btreemap::query_phase(&tree, &load.keys, &load.query_idx);
    let array_after = vec_sorted::query_phase(&array, &load.keys, &load.query_idx);
    assert_eq!(hash_after.hits, 5 - misses);
    assert_eq!(tree_after.hits, hash_after.hits);
    assert_eq!(array_after.hits, hash_after.hits);
}

#[test]
fn every_inserted_key_is_found_by_every_strategy() {
    let cfg = Config::new(500, 100, 3);
    let load = Workload::generate(&cfg);
    let mut mem = MemSampler::new_current(pid());
    let hash = filled_hash(&load.keys, cfg.step, &mut mem);
    let tree = filled_tree(&load.keys, cfg.step, &mut mem);
    let array = SortedVec::build(&load.keys, cfg.step, &mut mem);
    for &key in &load.keys {
        assert_eq!(hash.get(&key), Some(&(key ^ HM_MASK)));
        assert_eq!(tree.get(&key), Some(&(key ^ BT_MASK)));
        assert_eq!(array.get(key), Some(key));
    }
    assert_eq!(hashmap::query_phase(&hash, &load.keys, &load.query_idx).hits, 100);
    assert_eq!(btreemap::query_phase(&tree, &load.keys, &load.query_idx).hits, 100);
    assert_eq!(vec_sorted::query_phase(&array, &load.keys, &load.query_idx).hits, 100);
}

#[test]
fn deleted_keys_are_found_by_no_strategy() {
    let cfg = Config::new(500, 100, 11);
    let load = Workload::generate(&cfg);
    let mut mem = MemSampler::new_current(pid());
    let mut hash = filled_hash(&load.keys, cfg.step, &mut mem);
    let mut tree = filled_tree(&load.keys, cfg.step, &mut mem);
    let mut array = SortedVec::build(&load.keys, cfg.step, &mut mem);
    hashmap::delete_phase(&mut hash, &load.keys, &load.delete_idx);
    btreemap::delete_phase(&mut tree, &load.keys, &load.delete_idx);
    vec_sorted::delete_phase(&mut array, &load.keys, &load.delete_idx);
    for &at in &load.delete_idx {
        let key = load.keys[at];
        assert_eq!(hash.get(&key), None);
        assert_eq!(tree.get(&key), None);
        assert_eq!(array.get(key), None);
    }
    for &key in &load.keys {
        let found = hash.contains_key(&key);
        assert_eq!(tree.contains_key(&key), found);
        assert_eq!(array.get(key).is_some(), found);
    }
}

#[test]
fn the_array_is_sorted_after_the_insert_phase() {
    let keys = vec![9u64, 3, 7, 3, 1, 8, 0, u64::MAX, 5];
    let mut mem = MemSampler::new_current(pid());
    let array = SortedVec::build(&keys, 2, &mut mem);
    assert_eq!(array.items(), &vec![0, 1, 3, 3, 5, 7, 8, 9, u64::MAX]);
    assert_eq!(array.len(), 9);
}

#[test]
fn the_array_stays_sorted_after_every_delete() {
    let cfg = Config::new(200, 10, 5);
    let load = Workload::generate(&cfg);
    let mut mem = MemSampler::new_current(pid());
    let mut array = SortedVec::build(&load.keys, cfg.step, &mut mem);
    assert!(is_ascending(array.items()));
    let mut expected = load.keys.clone();
    expected.sort_unstable();
    assert_eq!(array.items(), &expected);
    for &at in &load.delete_idx {
        let key = load.keys[at];
        let held = array.items().contains(&key);
        let before = array.len();
        assert_eq!(array.remove(key), held);
        assert_eq!(array.len(), if held { before - 1 } else { before });
        assert!(is_ascending(array.items()));
    }
}

#[test]
fn a_delete_takes_out_one_copy_of_a_key() {
    let keys = vec![5u64, 5, 2, 9, 5];
    let mut mem = MemSampler::new_current(pid());
    let mut array = SortedVec::build(&keys, 1, &mut mem);
    assert_eq!(array.items(), &vec![2, 5, 5, 5, 9]);
    assert!(array.remove(5));
    assert_eq!(array.items(), &vec![2, 5, 5, 9]);
    assert!(!array.remove(4));
    assert_eq!(array.items(), &vec![2, 5, 5, 9]);
    assert!(array.remove(9));
    assert!(array.remove(2));
    assert_eq!(array.items(), &vec![5, 5]);
    assert_eq!(array.get(5), Some(5));
    assert_eq!(array.get(2), None);
}

#[test]
fn a_key_left_behind_in_the_array_is_gone_from_the_maps() {
    let keys = vec![5u64, 5];
    let deletes = vec![0usize];
    let mut mem = MemSampler::new_current(pid());
    let mut hash = filled_hash(&keys, 1, &mut mem);
    let mut tree = filled_tree(&keys, 1, &mut mem);
    let mut array = SortedVec::build(&keys, 1, &mut mem);
    assert_eq!(hashmap::delete_phase(&mut hash, &keys, &deletes), 1);
    assert_eq!(btreemap::delete_phase(&mut tree, &keys, &deletes), 1);
    assert_eq!(vec_sorted::delete_phase(&mut array, &keys, &deletes), 1);
    assert_eq!(hash.get(&5), None);
    assert_eq!(tree.get(&5), None);
    assert_eq!(array.get(5), Some(5));
}

#[test]
fn a_map_holds_a_key_once_with_its_masked_value() {
    let keys = vec![1u64, 2, 1, 0xFFFF_FFFF];
    let mut mem = MemSampler::new_current(pid());
    let hash = filled_hash(&keys, 1, &mut mem);
    let tree = filled_tree(&keys, 1, &mut mem);
    assert_eq!(hash.len(), 3);
    assert_eq!(tree.len(), 3);
    assert_eq!(hash[&1], 1 ^ 0xDEAD_BEEF);
    assert_eq!(hash[&0xFFFF_FFFF], 0xFFFF_FFFF ^ 0xDEAD_BEEF);
    assert_eq!(tree[&2], 2 ^ 0xC0FF_EE00);
}

#[test]
fn the_checksum_is_the_xor_of_what_was_found() {
    let keys = vec![1u64, 2, 4, 8];
    let lookups = vec![0usize, 1, 1, 3];
    let mut mem = MemSampler::new_current(pid());
    let mut hash = filled_hash(&keys, 1, &mut mem);
    let mut array = SortedVec::build(&keys, 1, &mut mem);
    let seen = hashmap::query_phase(&hash, &keys, &lookups);
    assert_eq!(seen.hits, 4);
    assert_eq!(seen.checksum, (1 ^ HM_MASK) ^ (2 ^ HM_MASK) ^ (2 ^ HM_MASK) ^ (8 ^ HM_MASK));
    let seen = vec_sorted::query_phase(&array, &keys, &lookups);
    assert_eq!(seen.hits, 4);
    assert_eq!(seen.checksum, 1 ^ 2 ^ 2 ^ 8);
    hash.remove(&2);
    array.remove(2);
    let seen = hashmap::query_phase(&hash, &keys, &lookups);
    assert_eq!(seen.hits, 2);
    assert_eq!(seen.checksum, (1 ^ HM_MASK) ^ (8 ^ HM_MASK));
    let seen = vec_sorted::query_phase(&array, &keys, &lookups);
    assert_eq!(seen.hits, 2);
    assert_eq!(seen.checksum, 1 ^ 8);
}

#[test]
fn a_full_run_reports_every_lookup_as_a_hit() {
    let cfg = Config::new(2_000, 300, 42);
    for report in [bench_hashmap(cfg, pid()), bench_btreemap(cfg, pid()), bench_vec_sorted(cfg, pid())] {
        assert_eq!(report.hits, 300);
        assert!(report.removed >= 1);
        assert!(report.removed <= 1_000);
        assert!(report.mem_peak >= report.mem_after_insert);
        assert!(report.mem_after_insert > 0);
    }
}

#[test]
fn full_runs_of_one_configuration_agree() {
    let cfg = Config::new(1_000, 50, 9);
    let first = bench_hashmap(cfg, pid());
    let again = bench_hashmap(cfg, pid());
    let tree = bench_btreemap(cfg, pid());
    let array = bench_vec_sorted(cfg, pid());
    assert_eq!(first.hits, again.hits);
    assert_eq!(first.removed, again.removed);
    assert_eq!(first.removed, tree.removed);
    assert_eq!(first.removed, array.removed);
}

#[test]
fn an_insert_phase_keeps_what_was_held_before() {
    let mut mem = MemSampler::new_current(pid());
    let mut hash: HashMap<u64, u64> = HashMap::new();
    hash.insert(1, 100);
    hash.insert(2, 200);
    hashmap::insert_phase(&mut hash, &vec![2, 3], 1, &mut mem);
    assert_eq!(hash.len(), 3);
    assert_eq!(hash[&1], 100);
    assert_eq!(hash[&2], 2 ^ HM_MASK);
    assert_eq!(hash[&3], 3 ^ HM_MASK);

    let mut array = SortedVec::build(&vec![4, 1], 1, &mut mem);
    array.fill(&vec![3, 0, 4], 1, &mut mem);
    assert_eq!(array.items(), &vec![0, 1, 3, 4, 4]);
    let empty = SortedVec::with_capacity(8);
    assert_eq!(empty.len(), 0);
    assert_eq!(empty.get(0), None);
}
