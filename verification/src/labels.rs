//! Label sets: a finite map from label keys to label values.

use vstd::prelude::*;

verus! {

/// A set of labels. No key occurs twice; the order of the entries carries no
/// meaning.
#[derive(Debug)]
pub struct Labels {
    entries: Vec<(String, String)>,
}

/// True if no two entries of `entries` share a key.
pub open spec fn distinct_keys(entries: Seq<(String, String)>) -> bool {
    forall|i: int, j: int|
        0 <= i < j < entries.len() ==> (#[trigger] entries[i]).0@ != (#[trigger] entries[j]).0@
}

/// The map that a sequence of entries with distinct keys stands for.
pub open spec fn entries_map(entries: Seq<(String, String)>) -> Map<Seq<char>, Seq<char>> {
    Map::new(
        |k: Seq<char>| exists|i: int| 0 <= i < entries.len() && (#[trigger] entries[i]).0@ == k,
        |k: Seq<char>|
            entries[choose|i: int| 0 <= i < entries.len() && (#[trigger] entries[i]).0@ == k].1@,
    )
}

/// With distinct keys, the entry at position `i` is what the map holds for its key.
pub proof fn lemma_entry_in_map(entries: Seq<(String, String)>, i: int)
    requires
        distinct_keys(entries),
        0 <= i < entries.len(),
    ensures
        entries_map(entries).contains_key(entries[i].0@),
        entries_map(entries)[entries[i].0@] == entries[i].1@,
{
    let k = entries[i].0@;
    let j = choose|j: int| 0 <= j < entries.len() && (#[trigger] entries[j]).0@ == k;
    assert(0 <= j < entries.len() && entries[j].0@ == k);
    assert(i == j);
}

impl View for Labels {
    type V = Map<Seq<char>, Seq<char>>;

    closed spec fn view(&self) -> Map<Seq<char>, Seq<char>> {
        entries_map(self.entries@)
    }
}

impl Labels {
    #[verifier::type_invariant]
    spec fn well_formed(self) -> bool {
        distinct_keys(self.entries@)
    }

    /// The empty label set.
    pub fn new() -> (res: Labels)
        ensures
            res@ == Map::<Seq<char>, Seq<char>>::empty(),
    {
        let res = Labels { entries: Vec::new() };
        assert(res@ =~= Map::<Seq<char>, Seq<char>>::empty());
        res
    }

    /// Sets the label `key` to `value`, replacing what the key held before.
    pub fn insert(&mut self, key: String, value: String)
        ensures
            final(self)@ == old(self)@.insert(key@, value@),
    {
        proof {
            use_type_invariant(&*self);
        }
        let mut entries: Vec<(String, String)> = Vec::new();
        std::mem::swap(&mut entries, &mut self.entries);
        let ghost before = entries@;
        let ghost k = key@;
        let ghost v = value@;
        let mut i: usize = 0;
        while i < entries.len() && entries[i].0 != key
            invariant
                i <= entries.len(),
                entries@ == before,
                key@ == k,
                forall|j: int| 0 <= j < i ==> (#[trigger] before[j]).0@ != k,
            decreases entries.len() - i,
        {
            i += 1;
        }
        if i < entries.len() {
            entries.set(i, (key, value));
        } else {
            entries.push((key, value));
        }
        proof {
            let after = entries@;
            assert(distinct_keys(after));
            assert forall|q: Seq<char>| #[trigger]
                entries_map(after).contains_key(q) <==> entries_map(before).insert(
                    k,
                    v,
                ).contains_key(q) by {
                if entries_map(after).contains_key(q) {
                    let j = choose|j: int| 0 <= j < after.len() && (#[trigger] after[j]).0@ == q;
                    if q != k {
                        assert(before[j].0@ == q);
                    }
                }
                if entries_map(before).contains_key(q) && q != k {
                    let j = choose|j: int| 0 <= j < before.len() && (#[trigger] before[j]).0@ == q;
                    assert(after[j].0@ == q);
                }
                if q == k {
                    assert(after[i as int].0@ == k);
                }
            }
            assert forall|q: Seq<char>| #[trigger]
                entries_map(after).contains_key(q) implies entries_map(after)[q] == entries_map(
                before,
            ).insert(k, v)[q] by {
                let j = choose|j: int| 0 <= j < after.len() && (#[trigger] after[j]).0@ == q;
                lemma_entry_in_map(after, j);
                if q != k {
                    assert(before[j].0@ == q);
                    lemma_entry_in_map(before, j);
                } else {
                    assert(after[i as int].0@ == k);
                    assert(j == i);
                }
            }
            assert(entries_map(after) =~= entries_map(before).insert(k, v));
        }
        self.entries = entries;
    }

    /// The value that `key` holds, if it holds one.
    pub fn get(&self, key: &String) -> (res: Option<String>)
        ensures
            match res {
                Some(value) => self@.contains_key(key@) && self@[key@] == value@,
                None => !self@.contains_key(key@),
            },
    {
        proof {
            use_type_invariant(self);
        }
        let mut i: usize = 0;
        while i < self.entries.len() && self.entries[i].0 != *key
            invariant
                i <= self.entries.len(),
                forall|j: int| 0 <= j < i ==> (#[trigger] self.entries@[j]).0@ != key@,
            decreases self.entries.len() - i,
        {
            i += 1;
        }
        if i < self.entries.len() {
            proof {
                lemma_entry_in_map(self.entries@, i as int);
            }
            Some(self.entries[i].1.clone())
        } else {
            None
        }
    }

    /// The number of labels.
    pub fn len(&self) -> (res: usize)
        ensures
            res == self@.dom().len(),
            self@.dom().finite(),
    {
        proof {
            use_type_invariant(self);
            lemma_domain_size(self.entries@);
        }
        self.entries.len()
    }

    /// The labels as pairs of key and value, each key once.
    pub fn pairs(&self) -> (res: Vec<(String, String)>)
        ensures
            distinct_keys(res@),
            entries_map(res@) == self@,
    {
        proof {
            use_type_invariant(self);
        }
        let mut res: Vec<(String, String)> = Vec::new();
        let mut i: usize = 0;
        while i < self.entries.len()
            invariant
                i <= self.entries.len(),
                res@ == self.entries@.take(i as int),
            decreases self.entries.len() - i,
        {
            res.push((self.entries[i].0.clone(), self.entries[i].1.clone()));
            assert(res@ =~= self.entries@.take(i + 1));
            i += 1;
        }
        assert(res@ =~= self.entries@);
        res
    }
}

impl Clone for Labels {
    fn clone(&self) -> (res: Labels)
        ensures
            res@ == self@,
    {
        proof {
            use_type_invariant(self);
        }
        let entries = self.pairs();
        Labels { entries }
    }
}

/// Entries with distinct keys stand for a map with as many keys as there are entries.
pub proof fn lemma_domain_size(entries: Seq<(String, String)>)
    requires
        distinct_keys(entries),
    ensures
        entries_map(entries).dom().finite(),
        entries_map(entries).dom().len() == entries.len(),
    decreases entries.len(),
{
    if entries.len() == 0 {
        assert(entries_map(entries).dom() =~= Set::<Seq<char>>::empty());
    } else {
        let front = entries.drop_last();
        let last = entries.last();
        assert forall|i: int, j: int| 0 <= i < j < front.len() implies (#[trigger] front[i]).0@
            != (#[trigger] front[j]).0@ by {
            assert(front[i] == entries[i] && front[j] == entries[j]);
        }
        lemma_domain_size(front);
        assert forall|q: Seq<char>| #[trigger]
            entries_map(entries).dom().contains(q) <==> entries_map(front).dom().insert(
                last.0@,
            ).contains(q) by {
            if entries_map(entries).dom().contains(q) && q != last.0@ {
                let j = choose|j: int| 0 <= j < entries.len() && (#[trigger] entries[j]).0@ == q;
                assert(front[j].0@ == q);
            }
            if entries_map(front).dom().contains(q) {
                let j = choose|j: int| 0 <= j < front.len() && (#[trigger] front[j]).0@ == q;
                assert(entries[j].0@ == q);
            }
            if q == last.0@ {
                assert(entries[entries.len() - 1].0@ == q);
            }
        }
        assert(entries_map(entries).dom() =~= entries_map(front).dom().insert(last.0@));
        if entries_map(front).dom().contains(last.0@) {
            let j = choose|j: int| 0 <= j < front.len() && (#[trigger] front[j]).0@ == last.0@;
            assert(entries[j].0@ == last.0@);
            assert(entries[entries.len() - 1].0@ == last.0@);
            assert(false);
        }
    }
}

} // verus!
