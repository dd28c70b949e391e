//! Counting occurrences by key.
//!
//! A tally is a list of entries, one per key that was counted, in the order
//! in which the keys first came. Its meaning is the map from the view of
//! each key to its count. Counts stop growing at the largest `u64`.

use crate::utils::ExecutionResult;
use vstd::prelude::*;

verus! {

/// One key of a tally and the number of times it was counted.
#[derive(Debug, Clone)]
pub struct Entry<K> {
    pub key: K,
    pub count: u64,
}

/// No two entries have keys with the same view.
pub open spec fn distinct_keys<K: View>(entries: Seq<Entry<K>>) -> bool {
    forall|i: int, j: int|
        0 <= i < entries.len() && 0 <= j < entries.len() && i != j ==> entries[i].key@
            != entries[j].key@
}

/// The map that a list of entries stands for.
pub open spec fn tally_map<K: View>(entries: Seq<Entry<K>>) -> Map<K::V, nat>
    decreases entries.len(),
{
    if entries.len() == 0 {
        Map::empty()
    } else {
        tally_map(entries.drop_last()).insert(entries.last().key@, entries.last().count as nat)
    }
}

/// The count of `key` in `counts`; zero where it was never counted.
pub open spec fn count_in<V>(counts: Map<V, nat>, key: V) -> nat {
    if counts.dom().contains(key) {
        counts[key]
    } else {
        0
    }
}

/// One more than `n`, unless `n` is the largest count there is.
pub open spec fn bump(n: nat) -> nat {
    if n < u64::MAX {
        n + 1
    } else {
        n
    }
}

/// `counts` after `key` was counted once more.
pub open spec fn counted<V>(counts: Map<V, nat>, key: V) -> Map<V, nat> {
    counts.insert(key, bump(count_in(counts, key)))
}

/// `counts` after `key` was counted `times` times more.
pub open spec fn counted_times<V>(counts: Map<V, nat>, key: V, times: nat) -> Map<V, nat>
    decreases times,
{
    if times == 0 {
        counts
    } else {
        counted(counted_times(counts, key, (times - 1) as nat), key)
    }
}

/// `counts` after each key of `keys` was counted once, in order.
pub open spec fn counted_all<V>(counts: Map<V, nat>, keys: Seq<V>) -> Map<V, nat>
    decreases keys.len(),
{
    if keys.len() == 0 {
        counts
    } else {
        counted(counted_all(counts, keys.drop_last()), keys.last())
    }
}

/// A key that no entry has is not in the map.
pub proof fn lemma_tally_absent<K: View>(entries: Seq<Entry<K>>, key: K::V)
    requires
        forall|i: int| 0 <= i < entries.len() ==> entries[i].key@ != key,
    ensures
        !tally_map(entries).dom().contains(key),
    decreases entries.len(),
{
    if entries.len() > 0 {
        lemma_tally_absent(entries.drop_last(), key);
    }
}

/// With distinct keys, the map gives every entry's key that entry's count.
pub proof fn lemma_tally_present<K: View>(entries: Seq<Entry<K>>, at: int)
    requires
        distinct_keys(entries),
        0 <= at < entries.len(),
    ensures
        tally_map(entries).dom().contains(entries[at].key@),
        tally_map(entries)[entries[at].key@] == entries[at].count,
    decreases entries.len(),
{
    if at < entries.len() - 1 {
        lemma_tally_present(entries.drop_last(), at);
    }
}

/// With distinct keys, the map has as many keys as there are entries.
pub proof fn lemma_tally_size<K: View>(entries: Seq<Entry<K>>)
    requires
        distinct_keys(entries),
    ensures
        tally_map(entries).dom().finite(),
        tally_map(entries).dom().len() == entries.len(),
    decreases entries.len(),
{
    if entries.len() > 0 {
        lemma_tally_size(entries.drop_last());
        lemma_tally_absent(entries.drop_last(), entries.last().key@);
    }
}

/// Replacing an entry by one with the same key changes that key's count
/// in the map and nothing else.
pub proof fn lemma_tally_update<K: View>(entries: Seq<Entry<K>>, at: int, entry: Entry<K>)
    requires
        distinct_keys(entries),
        0 <= at < entries.len(),
        entry.key@ == entries[at].key@,
    ensures
        distinct_keys(entries.update(at, entry)),
        tally_map(entries.update(at, entry)) == tally_map(entries).insert(
            entry.key@,
            entry.count as nat,
        ),
    decreases entries.len(),
{
    let updated = entries.update(at, entry);
    if at == entries.len() - 1 {
        assert(updated.drop_last() == entries.drop_last());
        assert(tally_map(updated) =~= tally_map(entries).insert(entry.key@, entry.count as nat));
    } else {
        lemma_tally_update(entries.drop_last(), at, entry);
        assert(updated.drop_last() == entries.drop_last().update(at, entry));
        assert(entries.last().key@ != entries[at].key@);
        assert(tally_map(updated) =~= tally_map(entries).insert(entry.key@, entry.count as nat));
    }
}

/// Two lists whose entries agree in the views of their keys and in their
/// counts stand for the same map.
pub proof fn lemma_tally_same<K: View>(left: Seq<Entry<K>>, right: Seq<Entry<K>>)
    requires
        left.len() == right.len(),
        forall|i: int|
            0 <= i < left.len() ==> left[i].key@ == right[i].key@ && left[i].count
                == right[i].count,
    ensures
        tally_map(left) == tally_map(right),
        distinct_keys(left) ==> distinct_keys(right),
    decreases left.len(),
{
    if left.len() > 0 {
        lemma_tally_same(left.drop_last(), right.drop_last());
    }
}

/// Counting a key `times` times from nothing gives that key alone, with
/// the count `times`, as long as `times` is a count that can be held.
pub proof fn lemma_repeated_key<V>(key: V, times: nat)
    requires
        1 <= times <= u64::MAX,
    ensures
        counted_times(Map::<V, nat>::empty(), key, times) == Map::<V, nat>::empty().insert(
            key,
            times,
        ),
    decreases times,
{
    let none = Map::<V, nat>::empty();
    if times == 1 {
        assert(counted_times(none, key, 0) == none);
        assert(counted(none, key) =~= none.insert(key, 1));
    } else {
        lemma_repeated_key(key, (times - 1) as nat);
        assert(counted(none.insert(key, (times - 1) as nat), key) =~= none.insert(key, times));
    }
}

/// Counting distinct keys once each from nothing gives exactly those
/// keys, each with the count one.
pub proof fn lemma_distinct_keys_once<V>(keys: Seq<V>)
    requires
        keys.no_duplicates(),
    ensures
        counted_all(Map::<V, nat>::empty(), keys).dom() == keys.to_set(),
        counted_all(Map::<V, nat>::empty(), keys).dom().finite(),
        counted_all(Map::<V, nat>::empty(), keys).dom().len() == keys.len(),
        forall|i: int|
            0 <= i < keys.len() ==> counted_all(Map::<V, nat>::empty(), keys)[#[trigger] keys[i]]
                == 1,
    decreases keys.len(),
{
    let none = Map::<V, nat>::empty();
    if keys.len() == 0 {
        assert(counted_all(none, keys).dom() =~= keys.to_set());
    } else {
        let front = keys.drop_last();
        let last = keys.last();
        lemma_distinct_keys_once(front);
        assert(keys == front.push(last));
        front.lemma_push_to_set_commute(last);
        assert(!front.contains(last)) by {
            if front.contains(last) {
                let j = choose|j: int| 0 <= j < front.len() && front[j] == last;
                assert(keys[j] == keys[keys.len() - 1]);
            }
        }
        let before = counted_all(none, front);
        assert(!before.dom().contains(last));
        assert(counted_all(none, keys).dom() =~= keys.to_set());
        assert forall|i: int| 0 <= i < keys.len() implies counted_all(none, keys)[#[trigger] keys[i]]
            == 1 by {
            if i < front.len() {
                assert(front[i] == keys[i]);
                assert(before[front[i]] == 1);
            }
        }
    }
}

/// How often each text was counted.
#[derive(Debug)]
pub struct TextTally {
    entries: Vec<Entry<String>>,
}

impl View for TextTally {
    type V = Map<<String as View>::V, nat>;

    closed spec fn view(&self) -> Self::V {
        tally_map(self.entries@)
    }
}

impl Clone for TextTally {
    /// A tally with the same counts.
    fn clone(&self) -> (copy: TextTally)
        ensures
            copy@ == self@,
    {
        proof {
            use_type_invariant(self);
        }
        let source: &Vec<Entry<String>> = &self.entries;
        let mut entries: Vec<Entry<String>> = Vec::new();
        let mut i: usize = 0;
        while i < source.len()
            invariant
                i <= source.len(),
                entries@.len() == i,
                forall|j: int|
                    0 <= j < i ==> entries@[j].key@ == source@[j].key@ && entries@[j].count
                        == source@[j].count,
            decreases source.len() - i,
        {
            entries.push(Entry { key: source[i].key.clone(), count: source[i].count });
            i += 1;
        }
        proof {
            lemma_tally_same(source@, entries@);
        }
        TextTally { entries }
    }
}

impl TextTally {
    #[verifier::type_invariant]
    spec fn distinct(&self) -> bool {
        distinct_keys(self.entries@)
    }

    /// A tally in which nothing was counted yet.
    pub fn new() -> (tally: TextTally)
        ensures
            tally@ == Map::<<String as View>::V, nat>::empty(),
    {
        TextTally { entries: Vec::new() }
    }

    /// Counts `key` once more.
    pub fn count(&mut self, key: &String)
        ensures
            final(self)@ == counted(old(self)@, key@),
    {
        proof {
            use_type_invariant(&*self);
        }
        let mut i: usize = 0;
        while i < self.entries.len()
            invariant
                i <= self.entries.len(),
                self.entries@ == old(self).entries@,
                distinct_keys(self.entries@),
                forall|j: int| 0 <= j < i ==> self.entries@[j].key@ != key@,
            decreases self.entries.len() - i,
        {
            if self.entries[i].key == *key {
                let count: u64 = self.entries[i].count;
                let next: u64 = if count < u64::MAX {
                    count + 1
                } else {
                    count
                };
                let entry = Entry { key: key.clone(), count: next };
                proof {
                    lemma_tally_present(self.entries@, i as int);
                    lemma_tally_update(self.entries@, i as int, entry);
                }
                let mut changed: Vec<Entry<String>> = Vec::new();
                core::mem::swap(&mut self.entries, &mut changed);
                changed[i] = entry;
                core::mem::swap(&mut self.entries, &mut changed);
                return ;
            }
            i += 1;
        }
        proof {
            lemma_tally_absent(self.entries@, key@);
            assert(self.entries@.push(Entry { key: *key, count: 1 }).drop_last()
                == self.entries@);
        }
        let mut grown: Vec<Entry<String>> = Vec::new();
        core::mem::swap(&mut self.entries, &mut grown);
        grown.push(Entry { key: key.clone(), count: 1 });
        core::mem::swap(&mut self.entries, &mut grown);
    }

    /// The count of `key`; zero if it was never counted.
    pub fn get(&self, key: &String) -> (count: u64)
        ensures
            count == count_in(self@, key@),
    {
        proof {
            use_type_invariant(self);
        }
        let mut i: usize = 0;
        while i < self.entries.len()
            invariant
                i <= self.entries.len(),
                distinct_keys(self.entries@),
                forall|j: int| 0 <= j < i ==> self.entries@[j].key@ != key@,
            decreases self.entries.len() - i,
        {
            if self.entries[i].key == *key {
                proof {
                    lemma_tally_present(self.entries@, i as int);
                }
                return self.entries[i].count;
            }
            i += 1;
        }
        proof {
            lemma_tally_absent(self.entries@, key@);
        }
        0
    }

    /// The number of different keys that were counted.
    pub fn len(&self) -> (n: usize)
        ensures
            self@.dom().finite(),
            n == self@.dom().len(),
    {
        proof {
            use_type_invariant(self);
            lemma_tally_size(self.entries@);
        }
        self.entries.len()
    }

    /// The entries, in the order in which their keys were first counted.
    pub fn entries(&self) -> (entries: &Vec<Entry<String>>)
        ensures
            distinct_keys(entries@),
            tally_map(entries@) == self@,
    {
        proof {
            use_type_invariant(self);
        }
        &self.entries
    }
}

/// How often each run outcome was counted.
#[derive(Debug)]
pub struct ResultTally {
    entries: Vec<Entry<ExecutionResult>>,
}

impl View for ResultTally {
    type V = Map<<ExecutionResult as View>::V, nat>;

    closed spec fn view(&self) -> Self::V {
        tally_map(self.entries@)
    }
}

impl Clone for ResultTally {
    /// A tally with the same counts.
    fn clone(&self) -> (copy: ResultTally)
        ensures
            copy@ == self@,
    {
        proof {
            use_type_invariant(self);
        }
        let source: &Vec<Entry<ExecutionResult>> = &self.entries;
        let mut entries: Vec<Entry<ExecutionResult>> = Vec::new();
        let mut i: usize = 0;
        while i < source.len()
            invariant
                i <= source.len(),
                entries@.len() == i,
                forall|j: int|
                    0 <= j < i ==> entries@[j].key@ == source@[j].key@ && entries@[j].count
                        == source@[j].count,
            decreases source.len() - i,
        {
            entries.push(Entry { key: source[i].key.duplicate(), count: source[i].count });
            i += 1;
        }
        proof {
            lemma_tally_same(source@, entries@);
        }
        ResultTally { entries }
    }
}

impl ResultTally {
    #[verifier::type_invariant]
    spec fn distinct(&self) -> bool {
        distinct_keys(self.entries@)
    }

    /// A tally in which nothing was counted yet.
    pub fn new() -> (tally: ResultTally)
        ensures
            tally@ == Map::<<ExecutionResult as View>::V, nat>::empty(),
    {
        ResultTally { entries: Vec::new() }
    }

    /// Counts `key` once more.
    pub fn count(&mut self, key: &ExecutionResult)
        ensures
            final(self)@ == counted(old(self)@, key@),
    {
        proof {
            use_type_invariant(&*self);
        }
        let mut i: usize = 0;
        while i < self.entries.len()
            invariant
                i <= self.entries.len(),
                self.entries@ == old(self).entries@,
                distinct_keys(self.entries@),
                forall|j: int| 0 <= j < i ==> self.entries@[j].key@ != key@,
            decreases self.entries.len() - i,
        {
            if self.entries[i].key.matches_result(key) {
                let count: u64 = self.entries[i].count;
                let next: u64 = if count < u64::MAX {
                    count + 1
                } else {
                    count
                };
                let entry = Entry { key: key.duplicate(), count: next };
                proof {
                    lemma_tally_present(self.entries@, i as int);
                    lemma_tally_update(self.entries@, i as int, entry);
                }
                let mut changed: Vec<Entry<ExecutionResult>> = Vec::new();
                core::mem::swap(&mut self.entries, &mut changed);
                changed[i] = entry;
                core::mem::swap(&mut self.entries, &mut changed);
                return ;
            }
            i += 1;
        }
        proof {
            lemma_tally_absent(self.entries@, key@);
            assert(self.entries@.push(Entry { key: *key, count: 1 }).drop_last()
                == self.entries@);
        }
        let mut grown: Vec<Entry<ExecutionResult>> = Vec::new();
        core::mem::swap(&mut self.entries, &mut grown);
        grown.push(Entry { key: key.duplicate(), count: 1 });
        core::mem::swap(&mut self.entries, &mut grown);
    }

    /// The count of `key`; zero if it was never counted.
    pub fn get(&self, key: &ExecutionResult) -> (count: u64)
        ensures
            count == count_in(self@, key@),
    {
        proof {
            use_type_invariant(self);
        }
        let mut i: usize = 0;
        while i < self.entries.len()
            invariant
                i <= self.entries.len(),
                distinct_keys(self.entries@),
                forall|j: int| 0 <= j < i ==> self.entries@[j].key@ != key@,
            decreases self.entries.len() - i,
        {
            if self.entries[i].key.matches_result(key) {
                proof {
                    lemma_tally_present(self.entries@, i as int);
                }
                return self.entries[i].count;
            }
            i += 1;
        }
        proof {
            lemma_tally_absent(self.entries@, key@);
        }
        0
    }

    /// The number of different keys that were counted.
    pub fn len(&self) -> (n: usize)
        ensures
            self@.dom().finite(),
            n == self@.dom().len(),
    {
        proof {
            use_type_invariant(self);
            lemma_tally_size(self.entries@);
        }
        self.entries.len()
    }

    /// The entries, in the order in which their keys were first counted.
    pub fn entries(&self) -> (entries: &Vec<Entry<ExecutionResult>>)
        ensures
            distinct_keys(entries@),
            tally_map(entries@) == self@,
    {
        proof {
            use_type_invariant(self);
        }
        &self.entries
    }
}

} // verus!
