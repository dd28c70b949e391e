use fuzzer::coverage::CoverageData;
use fuzzer::coverage::CoverageTracker;
use std::collections::HashMap;
use std::collections::HashSet;

fn coverage(hits: &[(usize, usize)]) -> CoverageData {
    let mut data = CoverageData::new();
    for &(block, count) in hits {
        for _ in 0..count {
            data.record_block(block);
        }
    }
    data
}

fn blocks(data: &CoverageData) -> Vec<usize> {
    let mut blocks: Vec<usize> = data.covered_blocks.iter().copied().collect();
    blocks.sort();
    blocks
}

fn counts(data: &CoverageData) -> Vec<(usize, usize)> {
    let mut counts: Vec<(usize, usize)> =
        data.block_hit_counts.iter().map(|(&b, &c)| (b, c)).collect();
    counts.sort();
    counts
}

#[test]
fn new_coverage_is_empty() {
    let data = CoverageData::new();
    assert!(data.covered_blocks.is_empty());
    assert!(data.block_hit_counts.is_empty());
    assert_eq!(data.hit_count(3), 0);
    assert!(!data.is_covered(3));
}

#[test]
fn recording_counts_every_hit() {
    let mut data = CoverageData::new();
    data.record_block(7);
    data.record_block(7);
    data.record_block(9);
    assert_eq!(blocks(&data), vec![7, 9]);
    assert_eq!(counts(&data), vec![(7, 2), (9, 1)]);
    assert_eq!(data.hit_count(7), 2);
    assert!(data.is_covered(9));
    assert!(!data.is_covered(8));
}

#[test]
fn merge_unites_blocks_and_adds_counts() {
    let mut a = coverage(&[(1, 2), (2, 1)]);
    let b = coverage(&[(2, 5), (3, 4)]);
    a.merge(&b);
    assert_eq!(blocks(&a), vec![1, 2, 3]);
    assert_eq!(counts(&a), vec![(1, 2), (2, 6), (3, 4)]);
    assert_eq!(counts(&b), vec![(2, 5), (3, 4)]);
}

#[test]
fn merge_is_commutative() {
    let a = coverage(&[(1, 2), (2, 1), (10, 3)]);
    let b = coverage(&[(2, 5), (3, 4)]);
    let mut a_then_b = a.clone();
    a_then_b.merge(&b);
    let mut b_then_a = b.clone();
    b_then_a.merge(&a);
    assert_eq!(blocks(&a_then_b), blocks(&b_then_a));
    assert_eq!(counts(&a_then_b), counts(&b_then_a));
}

#[test]
fn merge_is_associative() {
    let a = coverage(&[(1, 2), (2, 1)]);
    let b = coverage(&[(2, 5), (3, 4)]);
    let c = coverage(&[(1, 1), (3, 1), (4, 1)]);
    let mut left = a.clone();
    left.merge(&b);
    left.merge(&c);
    let mut bc = b.clone();
    bc.merge(&c);
    let mut right = a.clone();
    right.merge(&bc);
    assert_eq!(counts(&left), counts(&right));
    assert_eq!(blocks(&left), blocks(&right));
}

#[test]
fn merging_coverage_into_itself_adds_no_block() {
    let a = coverage(&[(1, 2), (2, 1)]);
    let mut doubled = a.clone();
    doubled.merge(&a);
    assert_eq!(blocks(&doubled), blocks(&a));
    assert_eq!(counts(&doubled), vec![(1, 4), (2, 2)]);
}

#[test]
fn merging_empty_coverage_changes_nothing() {
    let mut a = coverage(&[(1, 2)]);
    a.merge(&CoverageData::new());
    assert_eq!(counts(&a), vec![(1, 2)]);
    let mut empty = CoverageData::new();
    empty.merge(&a);
    assert_eq!(counts(&empty), vec![(1, 2)]);
}

#[test]
fn merge_counts_a_covered_block_without_count_as_zero() {
    let mut odd = CoverageData { covered_blocks: HashSet::new(), block_hit_counts: HashMap::new() };
    odd.covered_blocks.insert(5);
    let mut a = coverage(&[(1, 1)]);
    a.merge(&odd);
    assert_eq!(blocks(&a), vec![1, 5]);
    assert_eq!(counts(&a), vec![(1, 1), (5, 0)]);
}

#[test]
fn can_merge_tells_when_a_count_would_not_fit() {
    let mut full = CoverageData::new();
    full.covered_blocks.insert(1);
    full.block_hit_counts.insert(1, usize::MAX);
    let one = coverage(&[(1, 1)]);
    let other = coverage(&[(2, 1)]);
    assert!(!full.can_merge(&one));
    assert!(!one.can_merge(&full));
    assert!(full.can_merge(&other));
    assert!(other.can_merge(&full));
    assert!(full.can_merge(&CoverageData::new()));
}

#[test]
fn snapshot_is_independent() {
    let mut tracker = CoverageTracker::new();
    tracker.record(1);
    let snapshot = tracker.get_coverage();
    tracker.record(1);
    tracker.record(2);
    assert_eq!(counts(&snapshot), vec![(1, 1)]);
    assert_eq!(counts(&tracker.get_coverage()), vec![(1, 2), (2, 1)]);
}

#[test]
fn tracker_merge_adds_the_other_tracker() {
    let mut a = CoverageTracker::new();
    a.record(1);
    let mut b = CoverageTracker::new();
    b.record(1);
    b.record(2);
    a.merge(&b);
    assert_eq!(counts(&a.get_coverage()), vec![(1, 2), (2, 1)]);
    assert_eq!(counts(&b.get_coverage()), vec![(1, 1), (2, 1)]);
}

#[test]
fn loading_merges_and_repeated_loads_add_up() {
    let stored = coverage(&[(1, 2), (3, 1)]);
    let mut tracker = CoverageTracker::new();
    tracker.record(1);
    assert!(tracker.load_coverage(&stored).is_ok());
    assert_eq!(counts(&tracker.get_coverage()), vec![(1, 3), (3, 1)]);
    assert!(tracker.load_coverage(&stored).is_ok());
    assert_eq!(counts(&tracker.get_coverage()), vec![(1, 5), (3, 2)]);
}

#[test]
fn a_copy_of_the_coverage_is_deep() {
    let mut tracker = CoverageTracker::new();
    tracker.record(4);
    let copy = tracker.get_coverage().clone();
    tracker.record(4);
    assert_eq!(copy.hit_count(4), 1);
    assert_eq!(tracker.get_coverage().hit_count(4), 2);
}

#[test]
fn a_shared_tracker_counts_the_hits_of_every_handle() {
    let first = std::sync::Arc::new(std::sync::Mutex::new(CoverageTracker::new()));
    let second = std::sync::Arc::clone(&first);
    second.lock().unwrap().record(5);
    first.lock().unwrap().record(5);
    assert_eq!(counts(&first.lock().unwrap().get_coverage()), vec![(5, 2)]);
    assert_eq!(blocks(&second.lock().unwrap().get_coverage()), vec![5]);
}
