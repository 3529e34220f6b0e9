//! A string-keyed record map.
//!
//! The engine's persistent records (profiles, leaderboards, rooms, high
//! scores) are keyed by address or category strings.  `StrMap` stores the
//! pairs in a vector with pairwise-distinct keys and is viewed in
//! specifications as a `Map<Seq<char>, _>` of the records' views.

use vstd::prelude::*;

verus! {

/// A map from strings to records, abstracted as `Map<Seq<char>, <V as DeepView>::V>`.
pub struct StrMap<V> {
    pairs: Vec<(String, V)>,
}

/// The map denoted by a sequence of key-value pairs; later pairs win.
spec fn map_of<V: DeepView>(pairs: Seq<(String, V)>) -> Map<Seq<char>, <V as DeepView>::V>
    decreases pairs.len(),
{
    if pairs.len() == 0 {
        Map::empty()
    } else {
        map_of(pairs.drop_last()).insert(pairs.last().0@, pairs.last().1.deep_view())
    }
}

/// Keys are pairwise distinct.
spec fn keys_unique<V>(pairs: Seq<(String, V)>) -> bool {
    forall|i: int, j: int| 0 <= i < j < pairs.len() ==> pairs[i].0@ != pairs[j].0@
}

proof fn lemma_map_of_contains<V: DeepView>(pairs: Seq<(String, V)>, k: Seq<char>)
    ensures
        map_of(pairs).contains_key(k) <==> exists|i: int|
            0 <= i < pairs.len() && #[trigger] pairs[i].0@ == k,
    decreases pairs.len(),
{
    if pairs.len() > 0 {
        lemma_map_of_contains(pairs.drop_last(), k);
        let last: int = pairs.len() - 1;
        if pairs[last].0@ == k {
            assert(map_of(pairs).contains_key(k));
        } else {
            if map_of(pairs).contains_key(k) {
                let i = choose|i: int|
                    0 <= i < pairs.drop_last().len() && #[trigger] pairs.drop_last()[i].0@ == k;
                assert(pairs[i].0@ == k);
            }
            if exists|i: int| 0 <= i < pairs.len() && #[trigger] pairs[i].0@ == k {
                let i = choose|i: int| 0 <= i < pairs.len() && #[trigger] pairs[i].0@ == k;
                assert(pairs.drop_last()[i].0@ == k);
            }
        }
    }
}

proof fn lemma_map_of_index<V: DeepView>(pairs: Seq<(String, V)>, i: int)
    requires
        keys_unique(pairs),
        0 <= i < pairs.len(),
    ensures
        map_of(pairs).contains_key(pairs[i].0@),
        map_of(pairs)[pairs[i].0@] == pairs[i].1.deep_view(),
    decreases pairs.len(),
{
    let last: int = pairs.len() - 1;
    if i == last {
    } else {
        assert(pairs[i].0@ != pairs[last].0@);
        assert(pairs.drop_last()[i] == pairs[i]);
        lemma_map_of_index(pairs.drop_last(), i);
    }
}

proof fn lemma_map_of_remove<V: DeepView>(pairs: Seq<(String, V)>, i: int)
    requires
        keys_unique(pairs),
        0 <= i < pairs.len(),
    ensures
        map_of(pairs.remove(i)) =~= map_of(pairs).remove(pairs[i].0@),
    decreases pairs.len(),
{
    let last: int = pairs.len() - 1;
    let k = pairs[i].0@;
    if i == last {
        assert(pairs.remove(i) =~= pairs.drop_last());
        lemma_map_of_contains(pairs.drop_last(), k);
        assert(!map_of(pairs.drop_last()).contains_key(k)) by {
            if map_of(pairs.drop_last()).contains_key(k) {
                let j = choose|j: int|
                    0 <= j < pairs.drop_last().len() && #[trigger] pairs.drop_last()[j].0@ == k;
                assert(pairs[j].0@ == pairs[last].0@);
            }
        }
        assert(map_of(pairs.drop_last()) =~= map_of(pairs).remove(k));
    } else {
        assert(pairs.remove(i).drop_last() =~= pairs.drop_last().remove(i));
        assert(pairs.remove(i).last() == pairs.last());
        lemma_map_of_remove(pairs.drop_last(), i);
        assert(pairs.drop_last()[i] == pairs[i]);
        assert(pairs[i].0@ != pairs[last].0@);
        assert(map_of(pairs.remove(i)) =~= map_of(pairs).remove(k));
    }
}

impl<V: DeepView> View for StrMap<V> {
    type V = Map<Seq<char>, <V as DeepView>::V>;

    closed spec fn view(&self) -> Map<Seq<char>, <V as DeepView>::V> {
        map_of(self.pairs@)
    }
}

impl<V: DeepView> StrMap<V> {
    /// The stored pairs carry pairwise-distinct keys.
    pub closed spec fn wf(&self) -> bool {
        keys_unique(self.pairs@)
    }

    /// An empty map.
    pub fn new() -> (r: Self)
        ensures
            r.wf(),
            r@ == Map::<Seq<char>, <V as DeepView>::V>::empty(),
    {
        let r = StrMap { pairs: Vec::new() };
        proof {
            assert(r@ =~= Map::<Seq<char>, <V as DeepView>::V>::empty());
        }
        r
    }

    /// Looks a key up; `None` exactly when the key is unbound.
    pub fn get<'a>(&'a self, key: &String) -> (r: Option<&'a V>)
        requires
            self.wf(),
        ensures
            match r {
                Some(v) => self@.contains_key(key@) && v.deep_view() == self@[key@],
                None => !self@.contains_key(key@),
            },
    {
        proof {
            lemma_map_of_contains(self.pairs@, key@);
        }
        let n = self.pairs.len();
        let mut i: usize = 0;
        while i < n
            invariant
                n == self.pairs.len(),
                i <= n,
                self.wf(),
                forall|j: int| 0 <= j < i ==> self.pairs@[j].0@ != key@,
            decreases n - i,
        {
            if self.pairs[i].0 == *key {
                proof {
                    lemma_map_of_index(self.pairs@, i as int);
                }
                return Some(&self.pairs[i].1);
            }
            i = i + 1;
        }
        proof {
            lemma_map_of_contains(self.pairs@, key@);
        }
        None
    }

    /// Index of the pair bound to `key`, if any.
    fn index_of(&self, key: &String) -> (r: Option<usize>)
        ensures
            match r {
                Some(i) => i < self.pairs@.len() && self.pairs@[i as int].0@ == key@,
                None => forall|j: int| 0 <= j < self.pairs@.len() ==> self.pairs@[j].0@ != key@,
            },
    {
        let n = self.pairs.len();
        let mut i: usize = 0;
        while i < n
            invariant
                n == self.pairs.len(),
                i <= n,
                forall|j: int| 0 <= j < i ==> self.pairs@[j].0@ != key@,
            decreases n - i,
        {
            if self.pairs[i].0 == *key {
                return Some(i);
            }
            i = i + 1;
        }
        None
    }

    /// Binds `key` to `value`, replacing any previous binding.
    pub fn insert(&mut self, key: &String, value: V)
        requires
            old(self).wf(),
        ensures
            final(self).wf(),
            final(self)@ == old(self)@.insert(key@, value.deep_view()),
    {
        let ghost orig = self.pairs@;
        match self.index_of(key) {
            Some(i) => {
                proof {
                    lemma_map_of_remove(orig, i as int);
                    assert forall|a: int, b: int|
                        0 <= a < b < orig.remove(i as int).len() implies orig.remove(
                        i as int,
                    )[a].0@ != orig.remove(i as int)[b].0@ by {
                        let a2: int = if a < i { a } else { a + 1 };
                        let b2: int = if b < i { b } else { b + 1 };
                        assert(orig.remove(i as int)[a] == orig[a2]);
                        assert(orig.remove(i as int)[b] == orig[b2]);
                    }
                    assert forall|j: int| 0 <= j < orig.remove(i as int).len() implies orig.remove(
                        i as int,
                    )[j].0@ != key@ by {
                        let j2: int = if j < i { j } else { j + 1 };
                        assert(orig.remove(i as int)[j] == orig[j2]);
                    }
                }
                self.pairs.remove(i);
            },
            None => {
                proof {
                    lemma_map_of_contains(orig, key@);
                    assert(map_of(orig).remove(key@) =~= map_of(orig));
                }
            },
        }
        let ghost trimmed = self.pairs@;
        proof {
            assert(map_of(trimmed) =~= map_of(orig).remove(key@));
            assert(keys_unique(trimmed));
            assert(forall|j: int| 0 <= j < trimmed.len() ==> trimmed[j].0@ != key@);
        }
        let key_copy = key.clone();
        self.pairs.push((key_copy, value));
        proof {
            assert(self.pairs@.drop_last() =~= trimmed);
            assert(self.pairs@.last().0@ == key@);
            assert(map_of(self.pairs@) =~= map_of(orig).insert(key@, value.deep_view()));
            assert forall|a: int, b: int| 0 <= a < b < self.pairs@.len() implies self.pairs@[a].0@
                != self.pairs@[b].0@ by {
                assert(self.pairs@[a] == trimmed[a]);
                if b < self.pairs@.len() - 1 {
                    assert(self.pairs@[b] == trimmed[b]);
                }
            }
        }
    }
}

} // verus!
