//! Coverage accounting: which blocks were reached, and how often.

use crate::errors::FuzzerError;
use std::collections::HashMap;
use std::collections::HashSet;
use vstd::prelude::*;
use vstd::std_specs::iter::IteratorSpec;

verus! {

/// Coverage as a mathematical value: the blocks reached, and the number of
/// hits of each block that has a count.
pub struct CoverageView {
    pub blocks: Set<usize>,
    pub hits: Map<usize, usize>,
}

impl CoverageView {
    /// Every covered block has a count, and every count belongs to a
    /// covered block.
    pub open spec fn consistent(self) -> bool {
        self.blocks == self.hits.dom()
    }

    /// Number of hits of `block`; zero where it has no count.
    pub open spec fn count(self, block: usize) -> nat {
        if self.hits.dom().contains(block) {
            self.hits[block] as nat
        } else {
            0
        }
    }

    /// No coverage at all.
    pub open spec fn empty() -> CoverageView {
        CoverageView { blocks: Set::empty(), hits: Map::empty() }
    }

    /// This coverage after one more hit of `block`.
    pub open spec fn recorded(self, block: usize) -> CoverageView {
        CoverageView {
            blocks: self.blocks.insert(block),
            hits: self.hits.insert(block, (self.count(block) + 1) as usize),
        }
    }

    /// Whether `other` can be merged into this coverage without a count
    /// leaving the range of the machine word.
    pub open spec fn admits(self, other: CoverageView) -> bool {
        forall|b: usize|
            other.blocks.contains(b) ==> self.count(b) + other.count(b) <= usize::MAX
    }

    /// This coverage after `other` was merged into it: the union of the
    /// covered blocks, and for every block of `other` the sum of both counts.
    pub open spec fn merged(self, other: CoverageView) -> CoverageView {
        CoverageView {
            blocks: self.blocks.union(other.blocks),
            hits: Map::new(
                |b: usize| self.hits.dom().contains(b) || other.blocks.contains(b),
                |b: usize|
                    if other.blocks.contains(b) {
                        (self.count(b) + other.count(b)) as usize
                    } else {
                        self.hits[b]
                    },
            ),
        }
    }
}

/// The covered blocks and the hit count of each.
#[derive(Debug)]
pub struct CoverageData {
    pub covered_blocks: HashSet<usize>,
    pub block_hit_counts: HashMap<usize, usize>,
}

impl View for CoverageData {
    type V = CoverageView;

    open spec fn view(&self) -> CoverageView {
        CoverageView { blocks: self.covered_blocks@, hits: self.block_hit_counts@ }
    }
}

impl Clone for CoverageData {
    /// A deep copy: the same blocks and the same counts.
    fn clone(&self) -> (copy: CoverageData)
        ensures
            copy@ == self@,
    {
        self.snapshot()
    }
}

impl CoverageData {
    /// The invariant of coverage data: the covered set and the counted
    /// blocks are the same.
    pub open spec fn wf(&self) -> bool {
        self@.consistent()
    }

    /// Coverage with no block reached.
    pub fn new() -> (data: CoverageData)
        ensures
            data@ == CoverageView::empty(),
            data.wf(),
    {
        CoverageData { covered_blocks: HashSet::new(), block_hit_counts: HashMap::new() }
    }

    /// The hit count of `block_id`, zero if it was never reached.
    pub fn hit_count(&self, block_id: usize) -> (n: usize)
        ensures
            n == self@.count(block_id),
    {
        broadcast use vstd::std_specs::hash::group_hash_axioms;

        match self.block_hit_counts.get(&block_id) {
            Some(n) => *n,
            None => 0,
        }
    }

    /// Whether `block_id` was reached.
    pub fn is_covered(&self, block_id: usize) -> (b: bool)
        ensures
            b == self@.blocks.contains(block_id),
    {
        broadcast use vstd::std_specs::hash::group_hash_axioms;

        self.covered_blocks.contains(&block_id)
    }

    /// Counts one more hit of `block_id` and marks it as covered.
    pub fn record_block(&mut self, block_id: usize)
        requires
            old(self)@.count(block_id) < usize::MAX,
        ensures
            final(self)@ == old(self)@.recorded(block_id),
            old(self).wf() ==> final(self).wf(),
    {
        broadcast use vstd::std_specs::hash::group_hash_axioms;

        let count: usize = self.hit_count(block_id);
        self.covered_blocks.insert(block_id);
        self.block_hit_counts.insert(block_id, count + 1);
    }

    /// Merges `other` into this coverage: afterwards every block of `other`
    /// is covered here too, and its count here has grown by its count there.
    pub fn merge(&mut self, other: &CoverageData)
        requires
            old(self)@.admits(other@),
        ensures
            final(self)@ == old(self)@.merged(other@),
            old(self).wf() ==> final(self).wf(),
    {
        broadcast use vstd::std_specs::hash::group_hash_axioms;

        let ghost start = self@;
        let ghost theirs = other@;
        let ghost keys = other.covered_blocks.iter().remaining().unref();
        proof {
            lemma_keys_of(&other.covered_blocks);
        }
        for block in iter: other.covered_blocks.iter()
            invariant
                iter.seq().unref() == keys,
                keys.no_duplicates(),
                keys.to_set() == theirs.blocks,
                theirs == other@,
                forall|b: usize|
                    theirs.blocks.contains(b) ==> start.count(b) + theirs.count(b) <= usize::MAX,
                self@.blocks == start.blocks.union(keys.take(iter.index()).to_set()),
                self@.hits.dom() == start.hits.dom().union(keys.take(iter.index()).to_set()),
                forall|b: usize|
                    self@.count(b) == if keys.take(iter.index()).to_set().contains(b) {
                        start.count(b) + theirs.count(b)
                    } else {
                        start.count(b)
                    },
        {
            let id: usize = *block;
            proof {
                assert(keys[iter.index()] == id);
                lemma_next_key(keys, iter.index());
            }
            let ghost pre = self@;
            let mine: usize = self.hit_count(id);
            let more: usize = other.hit_count(id);
            self.covered_blocks.insert(id);
            self.block_hit_counts.insert(id, mine + more);
            proof {
                let before = keys.take(iter.index()).to_set();
                let after = keys.take(iter.index() + 1).to_set();
                assert(self@.blocks =~= start.blocks.union(after));
                assert(self@.hits.dom() =~= start.hits.dom().union(after));
                assert forall|b: usize|
                    self@.count(b) == if after.contains(b) {
                        start.count(b) + theirs.count(b)
                    } else {
                        start.count(b)
                    } by {
                    assert(pre.count(b) == if before.contains(b) {
                        start.count(b) + theirs.count(b)
                    } else {
                        start.count(b)
                    });
                }
            }
        }
        proof {
            assert(keys.take(keys.len() as int) == keys);
            assert forall|b: usize| self@.hits.dom().contains(b) implies self@.hits[b]
                == start.merged(theirs).hits[b] by {
                assert(self@.count(b) == if keys.to_set().contains(b) {
                    start.count(b) + theirs.count(b)
                } else {
                    start.count(b)
                });
            }
            assert(self@.hits =~= start.merged(theirs).hits);
            assert(self@.blocks =~= start.merged(theirs).blocks);
        }
    }

    /// Whether `other` can be merged into this coverage without a count
    /// leaving the range of the machine word.
    pub fn can_merge(&self, other: &CoverageData) -> (ok: bool)
        ensures
            ok == self@.admits(other@),
    {
        broadcast use vstd::std_specs::hash::group_hash_axioms;

        let ghost keys = other.covered_blocks.iter().remaining().unref();
        proof {
            lemma_keys_of(&other.covered_blocks);
        }
        for block in iter: other.covered_blocks.iter()
            invariant
                iter.seq().unref() == keys,
                keys.no_duplicates(),
                keys.to_set() == other@.blocks,
                forall|b: usize|
                    keys.take(iter.index()).to_set().contains(b) ==> self@.count(b)
                        + other@.count(b) <= usize::MAX,
        {
            proof {
                assert(keys[iter.index()] == *block);
                lemma_next_key(keys, iter.index());
            }
            let mine: usize = self.hit_count(*block);
            let more: usize = other.hit_count(*block);
            if more > usize::MAX - mine {
                assert(other@.blocks.contains(*block));
                return false;
            }
        }
        proof {
            assert(keys.take(keys.len() as int) == keys);
        }
        true
    }

    /// An independent copy of this coverage.
    pub fn snapshot(&self) -> (copy: CoverageData)
        ensures
            copy@ == self@,
    {
        broadcast use vstd::std_specs::hash::group_hash_axioms;

        let mut blocks: HashSet<usize> = HashSet::new();
        let ghost keys = self.covered_blocks.iter().remaining().unref();
        proof {
            lemma_keys_of(&self.covered_blocks);
        }
        for block in iter: self.covered_blocks.iter()
            invariant
                iter.seq().unref() == keys,
                keys.no_duplicates(),
                blocks@ == keys.take(iter.index()).to_set(),
        {
            proof {
                assert(keys[iter.index()] == *block);
                lemma_next_key(keys, iter.index());
            }
            blocks.insert(*block);
        }
        proof {
            assert(keys.take(keys.len() as int) == keys);
        }
        CoverageData { covered_blocks: blocks, block_hit_counts: self.block_hit_counts.clone() }
    }
}

/// The owner of the coverage of one fuzzing session.
///
/// Every change goes through a method of the tracker, so a reader who holds
/// a snapshot from [`CoverageTracker::get_coverage`] never sees a merge half
/// done. There is one tracker per session and it cannot be cloned: tasks
/// that share a session share the one tracker, behind a lock of the
/// caller's choosing. A copy of the coverage, which later hits do not
/// reach, is what [`CoverageTracker::get_coverage`] hands out.
#[derive(Debug)]
pub struct CoverageTracker {
    pub data: CoverageData,
}

impl View for CoverageTracker {
    type V = CoverageView;

    open spec fn view(&self) -> CoverageView {
        self.data@
    }
}

impl CoverageTracker {
    /// A tracker that has seen nothing yet.
    pub fn new() -> (tracker: CoverageTracker)
        ensures
            tracker@ == CoverageView::empty(),
            tracker.data.wf(),
    {
        CoverageTracker { data: CoverageData::new() }
    }

    /// Counts one hit of `block_id`.
    pub fn record(&mut self, block_id: usize)
        requires
            old(self)@.count(block_id) < usize::MAX,
        ensures
            final(self)@ == old(self)@.recorded(block_id),
            old(self).data.wf() ==> final(self).data.wf(),
    {
        self.data.record_block(block_id);
    }

    /// A deep copy of the coverage as it is now; later changes of the
    /// tracker do not reach it.
    pub fn get_coverage(&self) -> (snapshot: CoverageData)
        ensures
            snapshot@ == self@,
    {
        self.data.snapshot()
    }

    /// Merges the coverage of `other` into this tracker.
    pub fn merge(&mut self, other: &CoverageTracker)
        requires
            old(self)@.admits(other@),
        ensures
            final(self)@ == old(self)@.merged(other@),
            old(self).data.wf() ==> final(self).data.wf(),
    {
        self.data.merge(&other.data);
    }

    /// Takes in coverage that was stored earlier. The stored coverage is
    /// merged into the current one, it does not replace it, so loading
    /// twice counts every stored hit twice.
    pub fn load_coverage(&mut self, stored: &CoverageData) -> (done: Result<(), FuzzerError>)
        requires
            old(self)@.admits(stored@),
        ensures
            done is Ok,
            final(self)@ == old(self)@.merged(stored@),
            old(self).data.wf() ==> final(self).data.wf(),
    {
        self.data.merge(stored);
        Ok(())
    }
}

/// Merging is commutative: whichever of two consistent coverages is merged
/// into the other, the covered blocks and the counts come out the same.
pub proof fn lemma_merge_commutative(a: CoverageView, b: CoverageView)
    requires
        a.consistent(),
        b.consistent(),
    ensures
        a.merged(b) == b.merged(a),
        a.merged(b).consistent(),
{
    assert(a.merged(b).blocks =~= b.merged(a).blocks);
    assert(a.merged(b).hits =~= b.merged(a).hits);
    assert(a.merged(b).blocks =~= a.merged(b).hits.dom());
}

/// Merging is associative as long as the summed counts fit the machine word.
pub proof fn lemma_merge_associative(a: CoverageView, b: CoverageView, c: CoverageView)
    requires
        a.consistent(),
        b.consistent(),
        c.consistent(),
        forall|k: usize| a.count(k) + b.count(k) + c.count(k) <= usize::MAX,
    ensures
        a.merged(b).merged(c) == a.merged(b.merged(c)),
{
    let left = a.merged(b).merged(c);
    let right = a.merged(b.merged(c));
    assert(left.blocks =~= right.blocks);
    assert forall|k: usize| left.hits.dom().contains(k) implies left.hits[k] == right.hits[k] by {
        assert(a.count(k) + b.count(k) + c.count(k) <= usize::MAX);
    }
    assert(left.hits =~= right.hits);
}

/// Merging a consistent coverage into itself covers no new block and
/// counts no new block; the count of every block doubles.
pub proof fn lemma_merge_with_itself(a: CoverageView)
    requires
        a.consistent(),
    ensures
        a.merged(a).blocks == a.blocks,
        a.merged(a).hits.dom() == a.hits.dom(),
        forall|k: usize| 2 * a.count(k) <= usize::MAX ==> a.merged(a).count(k) == 2 * a.count(k),
{
    assert(a.merged(a).blocks =~= a.blocks);
    assert(a.merged(a).hits.dom() =~= a.hits.dom());
}

/// Merging an empty coverage changes nothing, and merging into an empty
/// coverage yields the other one.
pub proof fn lemma_merge_empty(a: CoverageView)
    requires
        a.consistent(),
    ensures
        a.merged(CoverageView::empty()) == a,
        CoverageView::empty().merged(a) == a,
{
    let e = CoverageView::empty();
    assert(a.merged(e).blocks =~= a.blocks);
    assert(a.merged(e).hits =~= a.hits);
    assert(e.merged(a).blocks =~= a.blocks);
    assert(e.merged(a).hits =~= a.hits);
}

/// The keys that a walk over `set` yields: each member once.
proof fn lemma_keys_of(set: &HashSet<usize>)
    ensures
        set.iter().remaining().unref().no_duplicates(),
        set.iter().remaining().unref().to_set() == set@,
{
    broadcast use vstd::std_specs::hash::group_hash_axioms;

    let walk = set.iter().remaining();
    let keys = walk.unref();
    assert forall|i: int, j: int| 0 <= i < keys.len() && 0 <= j < keys.len() && i != j implies keys[i]
        != keys[j] by {
        assert(walk[i] != walk[j]);
    }
}

/// Taking one more key of a duplicate-free walk adds exactly that key to
/// the set of keys taken so far.
proof fn lemma_next_key(keys: Seq<usize>, at: int)
    requires
        0 <= at < keys.len(),
        keys.no_duplicates(),
    ensures
        keys.take(at + 1).to_set() == keys.take(at).to_set().insert(keys[at]),
        !keys.take(at).to_set().contains(keys[at]),
        keys.to_set().contains(keys[at]),
{
    let done = keys.take(at);
    assert(keys.take(at + 1) == done.push(keys[at]));
    done.lemma_push_to_set_commute(keys[at]);
    if done.contains(keys[at]) {
        let j = choose|j: int| 0 <= j < done.len() && done[j] == keys[at];
        assert(keys[j] == keys[at]);
    }
    assert(keys.contains(keys[at]));
}

} // verus!
