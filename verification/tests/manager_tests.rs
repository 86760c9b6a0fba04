use seed_management::config::MAP_SIZE;
use seed_management::input_seed::InputSeed;
use seed_management::seed_pool::SeedPool;
use seed_management::SeedManagement;

#[test]
fn lib_it_works() {
    assert_eq!(2 + 2, 4);
}

#[test]
fn input_seed_starts_favored_and_not_fuzzed() {
    let seed = InputSeed::new(vec![1, 2, 3]);
    assert!(seed.is_favored);
    assert!(!seed.was_fuzzed);
    assert_eq!(seed.seed_vec, vec![1, 2, 3]);
    assert_eq!(seed.get_seed_vec(), vec![1, 2, 3]);
    let empty = InputSeed::emptyNew();
    assert!(empty.is_favored && !empty.was_fuzzed);
    assert_eq!(empty.get_seed_vec(), Vec::<u8>::new());
    let mut other = InputSeed::new(vec![9]);
    other.is_favored = false;
    other.was_fuzzed = true;
    let copy = other.duplicate();
    assert!(!copy.is_favored && copy.was_fuzzed);
    assert_eq!(copy.seed_vec, vec![9]);
}

#[test]
fn pool_hands_out_each_seed_once_then_none() {
    let mut pool = SeedPool::new("corpus");
    assert_eq!(pool.len(), 2);
    assert_eq!(pool.get_a_ini_seed().map(|s| s.get_seed_vec()), Some(vec![40, 32]));
    assert_eq!(pool.get_a_ini_seed().map(|s| s.get_seed_vec()), Some(vec![40, 32]));
    assert!(pool.get_a_ini_seed().is_none());
    // the cursor is back at the first seed
    assert_eq!(pool.get_a_seed_to_mutate().seed_vec, vec![40, 32]);
    assert_eq!(pool.get_a_ini_seed().map(|s| s.get_seed_vec()), Some(vec![40, 32]));
}

#[test]
fn pool_cursor_wraps_around() {
    let mut pool = SeedPool::new("corpus");
    pool.push_a_seed(vec![7]);
    pool.push_a_seed(vec![8, 9]);
    assert_eq!(pool.len(), 4);
    assert_eq!(pool.get_a_seed_to_mutate().seed_vec, vec![40, 32]);
    pool.seed_index_move();
    assert_eq!(pool.get_a_seed_to_mutate().seed_vec, vec![40, 32]);
    pool.seed_index_move();
    assert_eq!(pool.get_a_seed_to_mutate().seed_vec, vec![7]);
    pool.seed_index_move();
    let last = pool.get_a_seed_to_mutate();
    assert_eq!(last.seed_vec, vec![8, 9]);
    assert!(last.is_favored && !last.was_fuzzed);
    pool.seed_index_move();
    assert_eq!(pool.get_a_seed_to_mutate().seed_vec, vec![40, 32]);
}

#[test]
fn manager_hands_out_the_seeds_then_the_first_mutation() {
    let mut manager = SeedManagement::new("124");
    assert_eq!(manager.get_a_seed(), vec![40, 32]);
    assert_eq!(manager.get_a_seed(), vec![40, 32]);
    assert_eq!(manager.get_a_seed(), vec![168, 32]);
    assert_eq!(manager.get_a_seed(), vec![104, 32]);
    assert_eq!(manager.seed_count(), 2);
}

fn coverage(hits: &[usize]) -> [u32; MAP_SIZE] {
    let mut map = [0u32; MAP_SIZE];
    for hit in hits {
        map[*hit] = 3;
    }
    map
}

#[test]
fn pool_grows_only_on_new_coverage() {
    let mut manager = SeedManagement::new("124");
    assert_eq!(manager.get_a_seed(), vec![40, 32]);
    manager.give_coverage_info(coverage(&[]));
    assert_eq!(manager.seed_count(), 2);
    manager.give_coverage_info(coverage(&[5, 65535]));
    assert_eq!(manager.seed_count(), 3);
    manager.give_coverage_info(coverage(&[5, 65535]));
    assert_eq!(manager.seed_count(), 3);
    manager.give_coverage_info(coverage(&[5]));
    assert_eq!(manager.seed_count(), 3);
    manager.give_coverage_info(coverage(&[]));
    assert_eq!(manager.seed_count(), 3);
    manager.give_coverage_info(coverage(&[5, 6]));
    assert_eq!(manager.seed_count(), 4);
    // the new seeds are handed out as initial seeds before mutation starts
    assert_eq!(manager.get_a_seed(), vec![40, 32]);
    assert_eq!(manager.get_a_seed(), vec![40, 32]);
    assert_eq!(manager.get_a_seed(), vec![40, 32]);
    assert_eq!(manager.get_a_seed(), vec![168, 32]);
}

#[test]
fn coverage_is_never_lost() {
    let mut manager = SeedManagement::new("124");
    assert!(!manager.is_covered(0));
    assert!(!manager.is_covered(MAP_SIZE));
    let maps = [vec![1usize, 2], vec![], vec![2, 3], vec![65535], vec![1], vec![]];
    let mut seen: Vec<usize> = Vec::new();
    for hits in maps.iter() {
        let changed = manager.has_new_bits_and_change(coverage(hits));
        let new = hits.iter().any(|hit| !seen.contains(hit));
        assert_eq!(changed, new);
        seen.extend(hits.iter());
        for position in 0..MAP_SIZE {
            assert_eq!(manager.is_covered(position), seen.contains(&position));
        }
    }
}

#[test]
fn a_mutation_with_new_coverage_joins_the_corpus() {
    let mut manager = SeedManagement::new("124");
    manager.get_a_seed();
    manager.get_a_seed();
    let candidate = manager.get_a_seed();
    assert_eq!(candidate, vec![168, 32]);
    manager.give_coverage_info(coverage(&[77]));
    assert_eq!(manager.seed_count(), 3);
    // mutation of the first seed goes on where it was
    assert_eq!(manager.get_a_seed(), vec![104, 32]);
}

#[test]
fn manager_moves_on_when_a_seed_is_done() {
    let mut manager = SeedManagement::new("124");
    // an empty candidate joins the corpus before anything was handed out
    manager.give_coverage_info(coverage(&[1]));
    assert_eq!(manager.seed_count(), 3);
    assert_eq!(manager.get_a_seed(), vec![40, 32]);
    assert_eq!(manager.get_a_seed(), vec![40, 32]);
    assert_eq!(manager.get_a_seed(), Vec::<u8>::new());
    // walk the first seed to its end
    let mut first = manager.get_a_seed();
    assert_eq!(first, vec![168, 32]);
    let mut calls = 0u64;
    let mut restarts = 0;
    while restarts < 3 {
        let next = manager.get_a_seed();
        assert!(!next.is_empty());
        calls += 1;
        assert!(calls < 3 * (2000 + 1024 * 129));
        // a walk starts with the first two bit flips, one after the other
        if first == vec![168, 32] && next == vec![104, 32] {
            restarts += 1;
        }
        first = next;
    }
    assert_eq!(manager.seed_count(), 3);
}
