//! Small verified maps backing the drivers' caches: a vector of
//! key-value entries with pairwise-distinct keys, viewed as a `Map`.
//! One variant is keyed by 64-bit identifiers (protocol handles, device
//! addresses), the other by names (strings).

use vstd::prelude::*;

verus! {

use crate::text::str_eq;

/// Key `k` occurs among the entries.
pub open spec fn entries_have<K, V>(s: Seq<(K, V)>, k: K) -> bool {
    exists|i: int| 0 <= i < s.len() && s[i].0 == k
}

/// No key occurs twice.
pub open spec fn entries_unique<K, V>(s: Seq<(K, V)>) -> bool {
    forall|i: int, j: int| 0 <= i < j < s.len() ==> s[i].0 != s[j].0
}

/// The map an entry sequence denotes (later entries win).
pub open spec fn map_of<K, V>(s: Seq<(K, V)>) -> Map<K, V>
    decreases s.len(),
{
    if s.len() == 0 {
        Map::empty()
    } else {
        map_of(s.drop_last()).insert(s.last().0, s.last().1)
    }
}

pub proof fn lemma_map_of_contains<K, V>(s: Seq<(K, V)>, k: K)
    ensures
        map_of(s).contains_key(k) == entries_have(s, k),
    decreases s.len(),
{
    if s.len() == 0 {
    } else {
        lemma_map_of_contains(s.drop_last(), k);
        if s.last().0 == k {
            assert(s[s.len() - 1].0 == k);
        } else {
            if entries_have(s, k) {
                let i = choose|i: int| 0 <= i < s.len() && s[i].0 == k;
                assert(s.drop_last()[i].0 == k);
            }
            if entries_have(s.drop_last(), k) {
                let i = choose|i: int| 0 <= i < s.drop_last().len() && s.drop_last()[i].0 == k;
                assert(s[i].0 == k);
            }
        }
    }
}

pub proof fn lemma_map_of_index<K, V>(s: Seq<(K, V)>, i: int)
    requires
        entries_unique(s),
        0 <= i < s.len(),
    ensures
        map_of(s).contains_key(s[i].0),
        map_of(s)[s[i].0] == s[i].1,
    decreases s.len(),
{
    if i == s.len() - 1 {
    } else {
        assert(entries_unique(s.drop_last())) by {
            assert(forall|p: int, q: int|
                0 <= p < q < s.drop_last().len() ==> s.drop_last()[p] == s[p] && s.drop_last()[q]
                    == s[q]);
        }
        lemma_map_of_index(s.drop_last(), i);
        assert(s.drop_last()[i] == s[i]);
        assert(s[i].0 != s.last().0) by {
            assert(s.last() == s[s.len() - 1]);
        }
    }
}

pub proof fn lemma_map_of_push<K, V>(s: Seq<(K, V)>, k: K, v: V)
    ensures
        map_of(s.push((k, v))) == map_of(s).insert(k, v),
{
    assert(s.push((k, v)).drop_last() =~= s);
    assert(s.push((k, v)).last() == (k, v));
}

pub proof fn lemma_unique_drop_last<K, V>(s: Seq<(K, V)>)
    requires
        entries_unique(s),
        s.len() > 0,
    ensures
        entries_unique(s.drop_last()),
        !entries_have(s.drop_last(), s.last().0),
{
    assert(forall|p: int| 0 <= p < s.drop_last().len() ==> s.drop_last()[p] == s[p]);
    if entries_have(s.drop_last(), s.last().0) {
        let i = choose|i: int|
            0 <= i < s.drop_last().len() && s.drop_last()[i].0 == s.last().0;
        assert(s[i].0 == s[s.len() - 1].0);
    }
}

pub proof fn lemma_unique_remove<K, V>(s: Seq<(K, V)>, i: int)
    requires
        entries_unique(s),
        0 <= i < s.len(),
    ensures
        entries_unique(s.remove(i)),
        !entries_have(s.remove(i), s[i].0),
{
    s.remove_ensures(i);
    assert forall|p: int, q: int| 0 <= p < q < s.remove(i).len() implies s.remove(i)[p].0 != s.remove(
        i,
    )[q].0 by {
        let p0: int = if p < i {
            p
        } else {
            p + 1
        };
        let q0: int = if q < i {
            q
        } else {
            q + 1
        };
        assert(s.remove(i)[p] == s[p0]);
        assert(s.remove(i)[q] == s[q0]);
    }
    if entries_have(s.remove(i), s[i].0) {
        let j = choose|j: int| 0 <= j < s.remove(i).len() && s.remove(i)[j].0 == s[i].0;
        let j0: int = if j < i {
            j
        } else {
            j + 1
        };
        assert(s.remove(i)[j] == s[j0]);
        assert(s[j0].0 == s[i].0 && j0 != i);
    }
}

pub proof fn lemma_unique_push<K, V>(s: Seq<(K, V)>, k: K, v: V)
    requires
        entries_unique(s),
        !entries_have(s, k),
    ensures
        entries_unique(s.push((k, v))),
{
    assert forall|p: int, q: int|
        0 <= p < q < s.push((k, v)).len() implies s.push((k, v))[p].0 != s.push((k, v))[q].0 by {
        if q == s.len() {
            assert(s.push((k, v))[p] == s[p]);
            assert(s.push((k, v))[q] == (k, v));
            assert(s[p].0 != k) by {
                if s[p].0 == k {
                    assert(entries_have(s, k));
                }
            }
        } else {
            assert(s.push((k, v))[p] == s[p]);
            assert(s.push((k, v))[q] == s[q]);
        }
    }
}

pub proof fn lemma_map_of_remove<K, V>(s: Seq<(K, V)>, i: int)
    requires
        entries_unique(s),
        0 <= i < s.len(),
    ensures
        map_of(s.remove(i)) == map_of(s).remove(s[i].0),
    decreases s.len(),
{
    let k = s[i].0;
    s.remove_ensures(i);
    if i == s.len() - 1 {
        assert(s.remove(i) =~= s.drop_last());
        lemma_unique_drop_last(s);
        lemma_map_of_contains(s.drop_last(), k);
        assert(map_of(s).remove(k) =~= map_of(s.drop_last()));
    } else {
        let s2 = s.drop_last();
        lemma_unique_drop_last(s);
        lemma_map_of_remove(s2, i);
        assert(s.remove(i).drop_last() =~= s2.remove(i));
        assert(s.remove(i).last() == s.last()) by {
            assert(s.remove(i)[s.len() - 2] == s[s.len() - 1]);
        }
        assert(s2[i] == s[i]);
        assert(k != s.last().0) by {
            assert(s.last() == s[s.len() - 1]);
        }
        assert(map_of(s.remove(i)) == map_of(s2.remove(i)).insert(s.last().0, s.last().1));
        assert(map_of(s2).remove(k).insert(s.last().0, s.last().1) =~= map_of(s2).insert(
            s.last().0,
            s.last().1,
        ).remove(k));
    }
}

pub proof fn lemma_map_of_seq_insert<K, V>(s: Seq<(K, V)>, pos: int, k: K, v: V)
    requires
        entries_unique(s),
        !entries_have(s, k),
        0 <= pos <= s.len(),
    ensures
        map_of(s.insert(pos, (k, v))) == map_of(s).insert(k, v),
    decreases s.len(),
{
    let s2 = s.insert(pos, (k, v));
    if pos == s.len() {
        assert(s2 =~= s.push((k, v)));
        lemma_map_of_push(s, k, v);
    } else {
        s.insert_ensures(pos, (k, v));
        assert(s2.drop_last() =~= s.drop_last().insert(pos, (k, v)));
        assert(s2.last() == s[s.len() - 1]);
        lemma_unique_drop_last(s);
        assert(!entries_have(s.drop_last(), k)) by {
            if entries_have(s.drop_last(), k) {
                let j = choose|j: int| 0 <= j < s.drop_last().len() && s.drop_last()[j].0 == k;
                assert(s[j].0 == k);
            }
        }
        lemma_map_of_seq_insert(s.drop_last(), pos, k, v);
        assert(s.last().0 != k) by {
            if s.last().0 == k {
                assert(s[s.len() - 1].0 == k);
            }
        }
        assert(map_of(s2) == map_of(s.drop_last()).insert(k, v).insert(s.last().0, s.last().1));
        assert(map_of(s.drop_last()).insert(k, v).insert(s.last().0, s.last().1) =~= map_of(
            s.drop_last(),
        ).insert(s.last().0, s.last().1).insert(k, v));
    }
}

pub proof fn lemma_map_of_len<K, V>(s: Seq<(K, V)>)
    requires
        entries_unique(s),
    ensures
        map_of(s).dom().finite(),
        map_of(s).dom().len() == s.len(),
    decreases s.len(),
{
    if s.len() == 0 {
        assert(map_of(s).dom() =~= Set::<K>::empty());
    } else {
        lemma_unique_drop_last(s);
        lemma_map_of_len(s.drop_last());
        lemma_map_of_contains(s.drop_last(), s.last().0);
        assert(map_of(s).dom() =~= map_of(s.drop_last()).dom().insert(s.last().0));
    }
}

/// A map keyed by 64-bit identifiers.
pub struct IdMap<V> {
    entries: Vec<(u64, V)>,
}

impl<V> View for IdMap<V> {
    type V = Map<u64, V>;

    closed spec fn view(&self) -> Map<u64, V> {
        map_of(self.entries@)
    }
}

impl<V> IdMap<V> {
    /// The representation holds each key at most once.
    pub closed spec fn wf(self) -> bool {
        entries_unique(self.entries@)
    }

    pub fn new() -> (r: IdMap<V>)
        ensures
            r.wf(),
            r@ == Map::<u64, V>::empty(),
    {
        IdMap { entries: Vec::new() }
    }

    fn index_of(&self, k: u64) -> (r: Option<usize>)
        ensures
            match r {
                Some(i) => i < self.entries@.len() && self.entries@[i as int].0 == k,
                None => !entries_have(self.entries@, k),
            },
    {
        let mut i: usize = 0;
        while i < self.entries.len()
            invariant
                i <= self.entries@.len(),
                forall|j: int| 0 <= j < i ==> self.entries@[j].0 != k,
            decreases self.entries@.len() - i,
        {
            if self.entries[i].0 == k {
                return Some(i);
            }
            i += 1;
        }
        None
    }

    pub fn contains_key(&self, k: u64) -> (r: bool)
        ensures
            r == self@.contains_key(k),
    {
        proof {
            lemma_map_of_contains(self.entries@, k);
        }
        self.index_of(k).is_some()
    }

    pub fn get(&self, k: u64) -> (r: Option<&V>)
        requires
            self.wf(),
        ensures
            match r {
                Some(v) => self@.contains_key(k) && *v == self@[k],
                None => !self@.contains_key(k),
            },
    {
        proof {
            lemma_map_of_contains(self.entries@, k);
        }
        match self.index_of(k) {
            Some(i) => {
                proof {
                    lemma_map_of_index(self.entries@, i as int);
                }
                Some(&self.entries[i].1)
            },
            None => None,
        }
    }

    pub fn insert(&mut self, k: u64, v: V)
        requires
            old(self).wf(),
        ensures
            final(self).wf(),
            final(self)@ == old(self)@.insert(k, v),
    {
        let ghost s0 = self.entries@;
        let found = self.index_of(k);
        match found {
            Some(i) => {
                proof {
                    lemma_map_of_remove(s0, i as int);
                    lemma_unique_remove(s0, i as int);
                }
                self.entries.remove(i);
            },
            None => {},
        }
        let ghost s1 = self.entries@;
        proof {
            lemma_map_of_push(s1, k, v);
            lemma_unique_push(s1, k, v);
        }
        self.entries.push((k, v));
        proof {
            assert(self@ =~= old(self)@.insert(k, v));
        }
    }

    pub fn remove(&mut self, k: u64) -> (r: Option<V>)
        requires
            old(self).wf(),
        ensures
            final(self).wf(),
            final(self)@ == old(self)@.remove(k),
            match r {
                Some(v) => old(self)@.contains_key(k) && v == old(self)@[k],
                None => !old(self)@.contains_key(k),
            },
    {
        proof {
            lemma_map_of_contains(self.entries@, k);
        }
        match self.index_of(k) {
            Some(i) => {
                proof {
                    lemma_map_of_index(self.entries@, i as int);
                    lemma_map_of_remove(self.entries@, i as int);
                    lemma_unique_remove(self.entries@, i as int);
                }
                let e = self.entries.remove(i);
                Some(e.1)
            },
            None => {
                proof {
                    assert(old(self)@.remove(k) =~= old(self)@);
                }
                None
            },
        }
    }

    pub fn len(&self) -> (r: usize)
        requires
            self.wf(),
        ensures
            self@.dom().finite(),
            r == self@.dom().len(),
    {
        proof {
            lemma_map_of_len(self.entries@);
        }
        self.entries.len()
    }

    /// The entries as a list, for rendering a snapshot.
    pub fn entry_list(&self) -> (r: &Vec<(u64, V)>)
        requires
            self.wf(),
        ensures
            entries_unique(r@),
            self@.dom().finite(),
            r@.len() == self@.dom().len(),
            forall|i: int|
                0 <= i < r@.len() ==> self@.contains_key(#[trigger] r@[i].0) && self@[r@[i].0]
                    == r@[i].1,
    {
        proof {
            lemma_map_of_len(self.entries@);
            assert forall|i: int| 0 <= i < self.entries@.len() implies self@.contains_key(
                #[trigger] self.entries@[i].0,
            ) && self@[self.entries@[i].0] == self.entries@[i].1 by {
                lemma_map_of_index(self.entries@, i);
            }
        }
        &self.entries
    }
}

/// The character-level view of a name-keyed entry sequence.
pub open spec fn name_entries<V>(s: Seq<(String, V)>) -> Seq<(Seq<char>, V)> {
    s.map_values(|p: (String, V)| (p.0@, p.1))
}

/// A map keyed by names (node names and the like).
pub struct NameMap<V> {
    entries: Vec<(String, V)>,
}

impl<V> View for NameMap<V> {
    type V = Map<Seq<char>, V>;

    closed spec fn view(&self) -> Map<Seq<char>, V> {
        map_of(name_entries(self.entries@))
    }
}

impl<V> NameMap<V> {
    /// The representation holds each name at most once.
    pub closed spec fn wf(self) -> bool {
        entries_unique(name_entries(self.entries@))
    }

    pub fn new() -> (r: NameMap<V>)
        ensures
            r.wf(),
            r@ == Map::<Seq<char>, V>::empty(),
    {
        let r = NameMap { entries: Vec::new() };
        proof {
            assert(name_entries(r.entries@) =~= Seq::<(Seq<char>, V)>::empty());
        }
        r
    }

    fn index_of(&self, k: &str) -> (r: Option<usize>)
        ensures
            match r {
                Some(i) => i < self.entries@.len() && self.entries@[i as int].0@ == k@,
                None => !entries_have(name_entries(self.entries@), k@),
            },
    {
        let mut i: usize = 0;
        while i < self.entries.len()
            invariant
                i <= self.entries@.len(),
                forall|j: int| 0 <= j < i ==> self.entries@[j].0@ != k@,
            decreases self.entries@.len() - i,
        {
            if str_eq(self.entries[i].0.as_str(), k) {
                return Some(i);
            }
            i += 1;
        }
        proof {
            if entries_have(name_entries(self.entries@), k@) {
                let j = choose|j: int|
                    0 <= j < name_entries(self.entries@).len() && name_entries(self.entries@)[j].0
                        == k@;
                assert(self.entries@[j].0@ == k@);
            }
        }
        None
    }

    pub fn contains_key(&self, k: &str) -> (r: bool)
        ensures
            r == self@.contains_key(k@),
    {
        proof {
            lemma_map_of_contains(name_entries(self.entries@), k@);
        }
        match self.index_of(k) {
            Some(i) => {
                proof {
                    assert(name_entries(self.entries@)[i as int].0 == k@);
                }
                true
            },
            None => false,
        }
    }

    pub fn get(&self, k: &str) -> (r: Option<&V>)
        requires
            self.wf(),
        ensures
            match r {
                Some(v) => self@.contains_key(k@) && *v == self@[k@],
                None => !self@.contains_key(k@),
            },
    {
        proof {
            lemma_map_of_contains(name_entries(self.entries@), k@);
        }
        match self.index_of(k) {
            Some(i) => {
                proof {
                    assert(name_entries(self.entries@)[i as int].0 == k@);
                    lemma_map_of_index(name_entries(self.entries@), i as int);
                }
                Some(&self.entries[i].1)
            },
            None => None,
        }
    }

    pub fn insert(&mut self, k: String, v: V)
        requires
            old(self).wf(),
        ensures
            final(self).wf(),
            final(self)@ == old(self)@.insert(k@, v),
    {
        let ghost s0 = name_entries(self.entries@);
        let found = self.index_of(k.as_str());
        match found {
            Some(i) => {
                proof {
                    assert(s0[i as int].0 == k@);
                    lemma_map_of_remove(s0, i as int);
                    lemma_unique_remove(s0, i as int);
                }
                self.entries.remove(i);
                proof {
                    assert(name_entries(self.entries@) =~= s0.remove(i as int));
                }
            },
            None => {},
        }
        let ghost s1 = name_entries(self.entries@);
        proof {
            lemma_map_of_push(s1, k@, v);
            lemma_unique_push(s1, k@, v);
        }
        self.entries.push((k, v));
        proof {
            assert(name_entries(self.entries@) =~= s1.push((k@, v)));
            assert(self@ =~= old(self)@.insert(k@, v));
        }
    }

    pub fn remove(&mut self, k: &str) -> (r: Option<V>)
        requires
            old(self).wf(),
        ensures
            final(self).wf(),
            final(self)@ == old(self)@.remove(k@),
            match r {
                Some(v) => old(self)@.contains_key(k@) && v == old(self)@[k@],
                None => !old(self)@.contains_key(k@),
            },
    {
        proof {
            lemma_map_of_contains(name_entries(self.entries@), k@);
        }
        match self.index_of(k) {
            Some(i) => {
                let ghost s0 = name_entries(self.entries@);
                proof {
                    assert(s0[i as int].0 == k@);
                    lemma_map_of_index(s0, i as int);
                    lemma_map_of_remove(s0, i as int);
                    lemma_unique_remove(s0, i as int);
                }
                let e = self.entries.remove(i);
                proof {
                    assert(name_entries(self.entries@) =~= s0.remove(i as int));
                }
                Some(e.1)
            },
            None => {
                proof {
                    assert(old(self)@.remove(k@) =~= old(self)@);
                }
                None
            },
        }
    }
}

} // verus!
