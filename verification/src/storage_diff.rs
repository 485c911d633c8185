//! A set of changes to a key-value storage.
use fnv::FnvBuildHasher;
use hashbrown::HashSet;
use vstd::prelude::*;

use crate::bytes::{
    copy_bytes, has_prefix, is_equal, is_less, lemma_less_is_strict, lemma_less_is_total,
    lemma_prefix_is_first, lemma_prefix_range_is_contiguous, less,
};
use crate::key_set::{insert_key, key_set, remove_key};

verus! {

/// The entries are in strictly increasing order of their keys.
spec fn sorted(entries: Seq<(Vec<u8>, Option<Vec<u8>>)>) -> bool {
    forall|i: int, j: int| 0 <= i < j < entries.len() ==> less(entries[i].0@, entries[j].0@)
}

/// One of the entries has the key.
spec fn has_entry(entries: Seq<(Vec<u8>, Option<Vec<u8>>)>, key: Seq<u8>) -> bool {
    exists|i: int| 0 <= i < entries.len() && (#[trigger] entries[i]).0@ == key
}

/// The change that the entry of a key holds.
spec fn entry_of(entries: Seq<(Vec<u8>, Option<Vec<u8>>)>, key: Seq<u8>) -> Option<Seq<u8>> {
    let i = choose|i: int| 0 <= i < entries.len() && (#[trigger] entries[i]).0@ == key;
    entries[i].1.deep_view()
}

/// The changes that a list of entries stands for.
spec fn changes(entries: Seq<(Vec<u8>, Option<Vec<u8>>)>) -> Map<Seq<u8>, Option<Seq<u8>>> {
    Map::new(|key: Seq<u8>| has_entry(entries, key), |key: Seq<u8>| entry_of(entries, key))
}

/// What the keys `keys` of a storage become for a reader who sees the storage through `diff` and
/// asks for the keys that start with `prefix`: a key below the prefix that the diff sets is there,
/// one that the diff erases is not, and every other key is as before.
pub open spec fn keys_through(
    keys: Set<Seq<u8>>,
    diff: Map<Seq<u8>, Option<Seq<u8>>>,
    prefix: Seq<u8>,
) -> Set<Seq<u8>> {
    Set::new(
        |key: Seq<u8>|
            if prefix.is_prefix_of(key) && diff.contains_key(key) {
                diff[key] is Some
            } else {
                keys.contains(key)
            },
    )
}

/// Changes to a storage, by key. A key that has no entry is unchanged. The entry of a changed key
/// is its new value, or `None` if the key is erased.
///
/// As a mathematical object it is a map from keys to changes.
pub struct StorageDiff {
    /// One entry per changed key, in increasing order of the keys.
    entries: Vec<(Vec<u8>, Option<Vec<u8>>)>,
}

impl View for StorageDiff {
    type V = Map<Seq<u8>, Option<Seq<u8>>>;

    closed spec fn view(&self) -> Map<Seq<u8>, Option<Seq<u8>>> {
        changes(self.entries@)
    }
}

/// In a sorted list of entries each entry is the one of its key.
proof fn lemma_entry_is_unique(entries: Seq<(Vec<u8>, Option<Vec<u8>>)>, i: int)
    requires
        sorted(entries),
        0 <= i < entries.len(),
    ensures
        changes(entries).contains_key(entries[i].0@),
        changes(entries)[entries[i].0@] == entries[i].1.deep_view(),
{
    let key = entries[i].0@;
    assert(has_entry(entries, key));
    let j = choose|j: int| 0 <= j < entries.len() && (#[trigger] entries[j]).0@ == key;
    lemma_less_is_strict(key, key, key);
    assert(i == j);
}

/// An entry that is put in at its place, or takes the place of the one with its key, changes what
/// the entries stand for at that key alone.
proof fn lemma_insert(
    before: Seq<(Vec<u8>, Option<Vec<u8>>)>,
    after: Seq<(Vec<u8>, Option<Vec<u8>>)>,
    place: int,
    entry: (Vec<u8>, Option<Vec<u8>>),
)
    requires
        sorted(before),
        sorted(after),
        0 <= place <= before.len(),
        ({
            ||| place < before.len() && before[place].0@ == entry.0@ && after == before.update(
                place,
                entry,
            )
            ||| after == before.insert(place, entry)
        }),
    ensures
        changes(after) == changes(before).insert(entry.0@, entry.1.deep_view()),
{
    let key = entry.0@;
    let inserted = changes(before).insert(key, entry.1.deep_view());
    assert(after[place] == entry);
    lemma_entry_is_unique(after, place);
    assert forall|k: Seq<u8>|
        #![trigger changes(after).dom().contains(k)]
        #![trigger changes(after)[k]]
        k != key implies {
        &&& changes(after).dom().contains(k) == changes(before).dom().contains(k)
        &&& changes(before).dom().contains(k) ==> changes(after)[k] == changes(before)[k]
    } by {
        if changes(before).contains_key(k) {
            let i = choose|i: int| 0 <= i < before.len() && (#[trigger] before[i]).0@ == k;
            let j = if after.len() > before.len() && i >= place { i + 1 } else { i };
            assert(after[j] == before[i]);
            lemma_entry_is_unique(before, i);
            lemma_entry_is_unique(after, j);
        }
        if changes(after).contains_key(k) {
            let j = choose|j: int| 0 <= j < after.len() && (#[trigger] after[j]).0@ == k;
            assert(j != place);
            let i = if after.len() > before.len() && j > place { j - 1 } else { j };
            assert(after[j] == before[i]);
            assert(has_entry(before, k));
        }
    }
    assert(changes(after) =~= inserted);
}

impl StorageDiff {
    #[verifier::type_invariant]
    spec fn inv(self) -> bool {
        sorted(self.entries@)
    }

    /// A diff without any change.
    pub fn new() -> (diff: Self)
        ensures
            diff@ == Map::<Seq<u8>, Option<Seq<u8>>>::empty(),
    {
        let diff = StorageDiff { entries: Vec::new() };
        assert(diff@ =~= Map::<Seq<u8>, Option<Seq<u8>>>::empty());
        diff
    }

    /// The number of entries whose key sorts before `key`.
    fn lower_bound(entries: &Vec<(Vec<u8>, Option<Vec<u8>>)>, key: &[u8]) -> (bound: usize)
        requires
            sorted(entries@),
        ensures
            bound <= entries@.len(),
            forall|i: int| 0 <= i < bound ==> less((#[trigger] entries@[i]).0@, key@),
            forall|i: int| bound <= i < entries@.len() ==> !less((#[trigger] entries@[i]).0@, key@),
    {
        let mut low: usize = 0;
        let mut high: usize = entries.len();
        while low < high
            invariant
                low <= high <= entries@.len(),
                sorted(entries@),
                forall|i: int| 0 <= i < low ==> less((#[trigger] entries@[i]).0@, key@),
                forall|i: int| high <= i < entries@.len() ==> !less((#[trigger] entries@[i]).0@, key@),
            decreases high - low,
        {
            let middle: usize = low + (high - low) / 2;
            let ghost pivot = entries@[middle as int].0@;
            if is_less(entries[middle].0.as_slice(), key) {
                assert forall|i: int| 0 <= i <= middle implies less(
                    (#[trigger] entries@[i]).0@,
                    key@,
                ) by {
                    lemma_less_is_strict(entries@[i].0@, pivot, key@);
                }
                low = middle + 1;
            } else {
                assert forall|i: int| middle <= i < entries@.len() implies !less(
                    (#[trigger] entries@[i]).0@,
                    key@,
                ) by {
                    lemma_less_is_strict(pivot, entries@[i].0@, key@);
                }
                high = middle;
            }
        }
        low
    }

    /// The place of the entry of `key`, if there is one.
    fn find(entries: &Vec<(Vec<u8>, Option<Vec<u8>>)>, key: &[u8]) -> (place: Option<usize>)
        requires
            sorted(entries@),
        ensures
            match place {
                Some(i) => i < entries@.len() && entries@[i as int].0@ == key@,
                None => !has_entry(entries@, key@),
            },
    {
        let bound: usize = Self::lower_bound(entries, key);
        if bound < entries.len() && is_equal(entries[bound].0.as_slice(), key) {
            return Some(bound);
        }
        proof {
            if has_entry(entries@, key@) {
                let i = choose|i: int| 0 <= i < entries@.len() && (#[trigger] entries@[i]).0@ == key@;
                lemma_less_is_strict(key@, key@, key@);
                assert(bound < i);
                assert(less(entries@[bound as int].0@, key@));
            }
        }
        None
    }

    /// The change of a key: `None` if the key is unchanged, `Some(None)` if it is erased, and
    /// `Some(Some(value))` if it has a new value.
    pub fn get(&self, key: &[u8]) -> (change: Option<&Option<Vec<u8>>>)
        ensures
            match change {
                Some(change) => self@.contains_key(key@) && self@[key@] == change.deep_view(),
                None => !self@.contains_key(key@),
            },
    {
        proof {
            use_type_invariant(self);
        }
        match Self::find(&self.entries, key) {
            Some(i) => {
                proof {
                    lemma_entry_is_unique(self.entries@, i as int);
                }
                Some(&self.entries[i].1)
            },
            None => None,
        }
    }

    /// Whether the diff changes a key.
    pub fn contains_key(&self, key: &[u8]) -> (result: bool)
        ensures
            result == self@.contains_key(key@),
    {
        self.get(key).is_some()
    }

    /// Sets the change of a key. It takes the place of the change that the key had, if any.
    pub fn insert(&mut self, key: Vec<u8>, value: Option<Vec<u8>>)
        ensures
            final(self)@ == old(self)@.insert(key@, value.deep_view()),
    {
        proof {
            use_type_invariant(&*self);
        }
        let mut entries: Vec<(Vec<u8>, Option<Vec<u8>>)> = Vec::new();
        core::mem::swap(&mut entries, &mut self.entries);
        let ghost before = entries@;
        let bound: usize = Self::lower_bound(&entries, key.as_slice());
        if bound < entries.len() && is_equal(entries[bound].0.as_slice(), key.as_slice()) {
            let _ = entries.remove(bound);
            entries.insert(bound, (key, value));
            proof {
                let place = bound as int;
                assert(entries@ =~= before.update(place, (key, value)));
                assert(sorted(entries@));
                lemma_insert(before, entries@, place, (key, value));
            }
        } else {
            entries.insert(bound, (key, value));
            proof {
                let place = bound as int;
                assert(entries@ =~= before.insert(place, (key, value)));
                assert forall|i: int, j: int| 0 <= i < j < entries@.len() implies less(
                    entries@[i].0@,
                    entries@[j].0@,
                ) by {
                    if i < place {
                        assert(entries@[i] == before[i]);
                    }
                    if i > place {
                        assert(entries@[i] == before[i - 1]);
                    }
                    if j < place {
                        assert(entries@[j] == before[j]);
                    }
                    if j > place {
                        assert(entries@[j] == before[j - 1]);
                        if i == place {
                            lemma_less_is_total(key@, before[j - 1].0@);
                            if bound < before.len() && j - 1 > bound {
                                lemma_less_is_total(key@, before[place].0@);
                                lemma_less_is_strict(key@, before[place].0@, before[j - 1].0@);
                            }
                        }
                    }
                }
                assert(sorted(entries@));
                lemma_insert(before, entries@, place, (key, value));
            }
        }
        self.entries = entries;
    }

    /// Adds the changes of another diff. Where both change a key, the change of the other stays.
    pub fn extend(&mut self, other: StorageDiff)
        ensures
            final(self)@ == old(self)@.union_prefer_right(other@),
    {
        proof {
            use_type_invariant(&other);
        }
        let mut rest: Vec<(Vec<u8>, Option<Vec<u8>>)> = other.entries;
        let ghost total = old(self)@.union_prefer_right(other@);
        while rest.len() > 0
            invariant
                sorted(rest@),
                self@.union_prefer_right(changes(rest@)) == total,
            decreases rest@.len(),
        {
            let ghost all = rest@;
            let ghost before = self@;
            if let Some((key, value)) = rest.pop() {
                self.insert(key, value);
                proof {
                    assert(all =~= rest@.insert(rest@.len() as int, (key, value)));
                    lemma_insert(rest@, all, rest@.len() as int, (key, value));
                    assert(!changes(rest@).contains_key(key@)) by {
                        if has_entry(rest@, key@) {
                            let i = choose|i: int|
                                0 <= i < rest@.len() && (#[trigger] rest@[i]).0@ == key@;
                            assert(less(all[i].0@, all[all.len() - 1].0@));
                            lemma_less_is_strict(key@, key@, key@);
                        }
                    }
                    assert(self@.union_prefer_right(changes(rest@))
                        =~= before.union_prefer_right(changes(all)));
                }
            }
        }
        assert(changes(rest@) =~= Map::<Seq<u8>, Option<Seq<u8>>>::empty());
        assert(self@ =~= total);
    }

    /// Turns the keys that an unchanged storage has into those that it has with the changes made,
    /// as far as they start with `prefix`.
    pub fn apply_to_keys(&self, prefix: &[u8], keys: &mut HashSet<Vec<u8>, FnvBuildHasher>)
        ensures
            key_set(*final(keys)) == keys_through(key_set(*old(keys)), self@, prefix@),
    {
        proof {
            use_type_invariant(self);
        }
        let ghost entries = self.entries@;
        let ghost initial = key_set(*keys);
        let start: usize = Self::lower_bound(&self.entries, prefix);
        let mut i: usize = start;
        proof {
            assert forall|key: Seq<u8>| prefix@.is_prefix_of(key) implies !has_entry(
                entries.take(start as int),
                key,
            ) by {
                if has_entry(entries.take(start as int), key) {
                    let j = choose|j: int|
                        0 <= j < start && (#[trigger] entries.take(start as int)[j]).0@ == key;
                    assert(less(entries[j].0@, prefix@));
                    lemma_prefix_is_first(prefix@, key);
                }
            }
            assert(initial =~= keys_through(initial, changes(entries.take(start as int)), prefix@));
        }
        while i < self.entries.len() && has_prefix(self.entries[i].0.as_slice(), prefix)
            invariant
                start <= i <= entries.len(),
                entries == self.entries@,
                sorted(entries),
                key_set(*keys) == keys_through(initial, changes(entries.take(i as int)), prefix@),
            decreases entries.len() - i,
        {
            let entry = &self.entries[i];
            if entry.1.is_some() {
                insert_key(keys, copy_bytes(entry.0.as_slice()));
            } else {
                remove_key(keys, &entry.0);
            }
            proof {
                let seen = entries.take(i as int);
                assert(entries.take(i + 1) =~= seen.insert(i as int, entries[i as int]));
                lemma_insert(seen, entries.take(i + 1), i as int, entries[i as int]);
                assert(key_set(*keys)
                    =~= keys_through(initial, changes(entries.take(i + 1)), prefix@));
            }
            i = i + 1;
        }
        proof {
            let seen = entries.take(i as int);
            assert forall|key: Seq<u8>| prefix@.is_prefix_of(key) && has_entry(entries, key) implies {
                &&& has_entry(seen, key)
                &&& changes(seen)[key] == changes(entries)[key]
            } by {
                let j = choose|j: int| 0 <= j < entries.len() && (#[trigger] entries[j]).0@ == key;
                if j >= i {
                    assert(j > i);
                    assert(!less(entries[i as int].0@, prefix@));
                    lemma_prefix_range_is_contiguous(prefix@, entries[i as int].0@, key);
                }
                assert(seen[j] == entries[j]);
                lemma_entry_is_unique(seen, j);
                lemma_entry_is_unique(entries, j);
            }
            assert forall|key: Seq<u8>| has_entry(seen, key) implies has_entry(entries, key) by {
                let j = choose|j: int| 0 <= j < seen.len() && (#[trigger] seen[j]).0@ == key;
                assert(entries[j].0@ == key);
            }
            assert(key_set(*keys) =~= keys_through(initial, self@, prefix@));
        }
    }
}

} // verus!
