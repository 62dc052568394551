//! A map from text keys that remembers the order in which keys first came,
//! as the panel's insertion-ordered maps (docker images, configuration
//! files, permission groups, environment variables) behave.

use vstd::prelude::*;

verus! {

/// The position of the first entry whose key is `k`.
pub open spec fn find_key<V>(m: Seq<(String, V)>, k: Seq<char>) -> Option<nat>
    decreases m.len(),
{
    if m.len() == 0 {
        None
    } else {
        match find_key(m.drop_last(), k) {
            Some(i) => Some(i),
            None => if m.last().0@ == k {
                Some((m.len() - 1) as nat)
            } else {
                None
            },
        }
    }
}

/// Inserting `k => v`: a present key keeps its entry, its position and
/// its first key text, and takes the new value; a new key goes last.
pub open spec fn map_insert<V>(m: Seq<(String, V)>, k: String, v: V) -> Seq<(String, V)> {
    match find_key(m, k@) {
        Some(i) => m.update(i as int, (m[i as int].0, v)),
        None => m.push((k, v)),
    }
}

/// Collecting `pairs` into a map, one insertion after the other.
pub open spec fn map_collect<V>(pairs: Seq<(String, V)>) -> Seq<(String, V)>
    decreases pairs.len(),
{
    if pairs.len() == 0 {
        Seq::empty()
    } else {
        map_insert(map_collect(pairs.drop_last()), pairs.last().0, pairs.last().1)
    }
}

/// No key occurs twice.
pub open spec fn keys_distinct<V>(m: Seq<(String, V)>) -> bool {
    forall|i: int, j: int| 0 <= i < j < m.len() ==> m[i].0@ != m[j].0@
}

/// `k` is a key of `m`.
pub open spec fn has_key<V>(m: Seq<(String, V)>, k: Seq<char>) -> bool {
    exists|i: int| 0 <= i < m.len() && m[i].0@ == k
}

pub proof fn lemma_find_key<V>(m: Seq<(String, V)>, k: Seq<char>)
    ensures
        match find_key(m, k) {
            Some(i) => i < m.len() && m[i as int].0@ == k && forall|j: int|
                0 <= j < i ==> m[j].0@ != k,
            None => !has_key(m, k),
        },
    decreases m.len(),
{
    if m.len() > 0 {
        let d = m.drop_last();
        lemma_find_key(d, k);
        assert forall|j: int| 0 <= j < d.len() implies d[j] == m[j] by {}
        if find_key(d, k) is None {
            if m.last().0@ != k {
                assert forall|i: int| 0 <= i < m.len() implies m[i].0@ != k by {
                    if i < m.len() - 1 {
                        assert(d[i] == m[i]);
                    }
                }
            } else {
                assert forall|j: int| 0 <= j < m.len() - 1 implies m[j].0@ != k by {
                    assert(d[j] == m[j]);
                }
            }
        }
    }
}

/// Inserting keeps the keys distinct.
pub proof fn lemma_insert_distinct<V>(m: Seq<(String, V)>, k: String, v: V)
    requires
        keys_distinct(m),
    ensures
        keys_distinct(map_insert(m, k, v)),
        has_key(map_insert(m, k, v), k@),
{
    lemma_find_key(m, k@);
    let r = map_insert(m, k, v);
    match find_key(m, k@) {
        Some(i) => {
            assert(r[i as int].0@ == k@);
        },
        None => {
            assert(r[m.len() as int].0@ == k@);
        },
    }
}

/// What an insertion writes, a lookup reads back: after inserting `k => v`
/// the entry under `k` holds `v`, every other key keeps its place and its
/// entry, and no key occurs twice.
pub proof fn law_insert_then_find<V>(m: Seq<(String, V)>, k: String, v: V, other: Seq<char>)
    requires
        keys_distinct(m),
        other != k@,
    ensures
        find_key(map_insert(m, k, v), k@) matches Some(i) && map_insert(m, k, v)[i as int].1 == v,
        find_key(map_insert(m, k, v), other) == find_key(m, other),
        find_key(m, other) matches Some(j) ==> map_insert(m, k, v)[j as int] == m[j as int],
        keys_distinct(map_insert(m, k, v)),
{
    let r = map_insert(m, k, v);
    lemma_find_key(m, k@);
    lemma_find_key(m, other);
    lemma_find_key(r, k@);
    lemma_find_key(r, other);
    lemma_insert_distinct(m, k, v);
    match find_key(m, k@) {
        Some(i) => {
            assert(forall|j: int| 0 <= j < r.len() ==> #[trigger] r[j].0 == m[j].0);
            let ri = find_key(r, k@)->0;
            if ri < i {
                assert(r[ri as int].0 == m[ri as int].0);
            }
            if ri > i {
                assert(r[i as int].0@ == k@);
            }
            match find_key(m, other) {
                Some(j) => {
                    let rj = find_key(r, other)->0;
                    assert(r[j as int].0@ == other);
                    if rj < j {
                        assert(r[rj as int].0 == m[rj as int].0);
                    }
                },
                None => {
                    if find_key(r, other) is Some {
                        let rj = find_key(r, other)->0;
                        assert(r[rj as int].0 == m[rj as int].0);
                    }
                },
            }
        },
        None => {
            assert(forall|j: int| 0 <= j < m.len() ==> #[trigger] r[j] == m[j]);
            let ri = find_key(r, k@)->0;
            if ri < m.len() {
                assert(r[ri as int] == m[ri as int]);
            }
            match find_key(m, other) {
                Some(j) => {
                    let rj = find_key(r, other)->0;
                    assert(r[j as int] == m[j as int]);
                    if rj < j {
                        assert(r[rj as int] == m[rj as int]);
                    }
                },
                None => {
                    if find_key(r, other) is Some {
                        let rj = find_key(r, other)->0;
                        if rj < m.len() {
                            assert(r[rj as int] == m[rj as int]);
                        }
                    }
                },
            }
        },
    }
}

/// Collecting pairs whose keys are distinct gives the pairs back, in order.
pub proof fn lemma_collect_distinct<V>(pairs: Seq<(String, V)>)
    requires
        keys_distinct(pairs),
    ensures
        map_collect(pairs) == pairs,
    decreases pairs.len(),
{
    if pairs.len() > 0 {
        let init = pairs.drop_last();
        assert(keys_distinct(init));
        lemma_collect_distinct(init);
        lemma_find_key(init, pairs.last().0@);
        if find_key(init, pairs.last().0@) is Some {
            let i = find_key(init, pairs.last().0@)->0;
            assert(pairs[i as int].0@ == pairs[pairs.len() - 1].0@);
        }
        assert(map_collect(pairs) =~= pairs);
    }
}

/// Collecting any pairs gives a map whose keys are distinct.
pub proof fn lemma_collect_keys_distinct<V>(pairs: Seq<(String, V)>)
    ensures
        keys_distinct(map_collect(pairs)),
    decreases pairs.len(),
{
    if pairs.len() > 0 {
        lemma_collect_keys_distinct(pairs.drop_last());
        lemma_insert_distinct(map_collect(pairs.drop_last()), pairs.last().0, pairs.last().1);
    }
}

/// An insertion-ordered map from text keys to values.
pub struct OrderedMap<V> {
    pub entries: Vec<(String, V)>,
}

impl<V> OrderedMap<V> {
    /// The entries, in order.
    pub open spec fn pairs(&self) -> Seq<(String, V)> {
        self.entries@
    }

    /// An empty map.
    pub fn new() -> (m: Self)
        ensures
            m.pairs() == Seq::<(String, V)>::empty(),
    {
        let m = OrderedMap { entries: Vec::new() };
        assert(m.pairs() =~= Seq::<(String, V)>::empty());
        m
    }

    /// The number of entries.
    pub fn len(&self) -> (n: usize)
        ensures
            n == self.pairs().len(),
    {
        self.entries.len()
    }

    /// The position of the entry for `k`.
    pub fn index_of(&self, k: &String) -> (r: Option<usize>)
        ensures
            r matches Some(i) ==> i < self.entries@.len() && find_key(self.pairs(), k@) == Some(
                i as nat,
            ),
            r is None ==> find_key(self.pairs(), k@) is None,
    {
        let mut i: usize = 0;
        while i < self.entries.len()
            invariant
                i <= self.entries@.len(),
                self.pairs().len() == self.entries@.len(),
                forall|j: int| 0 <= j < i ==> self.pairs()[j].0@ != k@,
            decreases self.entries@.len() - i,
        {
            if self.entries[i].0 == *k {
                proof {
                    lemma_find_key(self.pairs(), k@);
                    let f = find_key(self.pairs(), k@);
                    if f is None {
                        assert(self.pairs()[i as int].0@ == k@);
                    } else {
                        let w = f->0;
                        if w < i {
                            assert(self.pairs()[w as int].0@ != k@);
                        }
                        assert(w == i);
                    }
                }
                return Some(i);
            }
            i = i + 1;
        }
        proof {
            lemma_find_key(self.pairs(), k@);
            let f = find_key(self.pairs(), k@);
            if f is Some {
                let w = f->0;
                assert(self.pairs()[w as int].0@ == k@);
            }
        }
        None
    }

    /// Inserts `k => v`; a present key keeps its place.
    pub fn insert(&mut self, k: String, v: V)
        ensures
            final(self).pairs() == map_insert(old(self).pairs(), k, v),
    {
        match self.index_of(&k) {
            Some(i) => {
                let (first_key, _previous) = self.entries.remove(i);
                self.entries.insert(i, (first_key, v));
                assert(self.pairs() =~= map_insert(old(self).pairs(), k, v));
            },
            None => {
                self.entries.push((k, v));
                assert(self.pairs() =~= map_insert(old(self).pairs(), k, v));
            },
        }
    }

    /// Builds a map from pairs, one insertion after the other.
    pub fn collect(pairs: Vec<(String, V)>) -> (m: Self)
        ensures
            m.pairs() == map_collect(pairs@),
    {
        let ghost spairs = pairs@;
        let total = pairs.len();
        let mut m = OrderedMap::new();
        let mut rest = pairs;
        rest = reversed(rest);
        let ghost n = spairs.len();
        assert(n == total);
        let mut i: usize = 0;
        while rest.len() > 0
            invariant
                i + rest@.len() == n,
                n == spairs.len(),
                n == total,
                forall|j: int|
                    0 <= j < rest@.len() ==> #[trigger] rest@[j] == spairs[n - 1 - j],
                m.pairs() == map_collect(spairs.subrange(0, i as int)),
            decreases rest@.len(),
        {
            let (k, v) = rest.pop().unwrap();
            proof {
                assert(spairs.subrange(0, i + 1).drop_last() =~= spairs.subrange(0, i as int));
            }
            m.insert(k, v);
            i = i + 1;
        }
        assert(spairs.subrange(0, n as int) =~= spairs);
        m
    }
}

/// The entries of a map of lists, as key texts and list contents.
pub open spec fn list_view<T>(m: Seq<(String, Vec<T>)>) -> Seq<(Seq<char>, Seq<T>)> {
    m.map_values(|e: (String, Vec<T>)| (e.0@, e.1@))
}

/// The position of the first list under `k`.
pub open spec fn find_list<T>(m: Seq<(Seq<char>, Seq<T>)>, k: Seq<char>) -> Option<nat>
    decreases m.len(),
{
    if m.len() == 0 {
        None
    } else {
        match find_list(m.drop_last(), k) {
            Some(i) => Some(i),
            None => if m.last().0 == k {
                Some((m.len() - 1) as nat)
            } else {
                None
            },
        }
    }
}

/// Appending `v` under `k`: a present key's list grows at its end, a new
/// key goes last with a list of `v` alone.
pub open spec fn list_append<T>(m: Seq<(Seq<char>, Seq<T>)>, k: Seq<char>, v: T) -> Seq<(Seq<char>, Seq<T>)> {
    match find_list(m, k) {
        Some(i) => m.update(i as int, (m[i as int].0, m[i as int].1.push(v))),
        None => m.push((k, seq![v])),
    }
}

/// The values of `pairs` grouped under their keys: keys in the order they
/// first come, each with its values in order.
pub open spec fn group_pairs<T>(pairs: Seq<(Seq<char>, T)>) -> Seq<(Seq<char>, Seq<T>)>
    decreases pairs.len(),
{
    if pairs.len() == 0 {
        Seq::empty()
    } else {
        list_append(group_pairs(pairs.drop_last()), pairs.last().0, pairs.last().1)
    }
}

proof fn lemma_find_list_key<T>(m: Seq<(String, Vec<T>)>, k: Seq<char>)
    ensures
        find_list(list_view(m), k) == find_key(m, k),
    decreases m.len(),
{
    if m.len() > 0 {
        lemma_find_list_key(m.drop_last(), k);
        assert(list_view(m.drop_last()) =~= list_view(m).drop_last());
    }
}

impl<T> OrderedMap<Vec<T>> {
    /// Appends `v` to the list under `k`.
    pub fn append(&mut self, k: String, v: T)
        ensures
            list_view(final(self).pairs()) == list_append(list_view(old(self).pairs()), k@, v),
    {
        proof {
            lemma_find_list_key(self.pairs(), k@);
        }
        match self.index_of(&k) {
            Some(i) => {
                let (first_key, mut list) = self.entries.remove(i);
                list.push(v);
                self.entries.insert(i, (first_key, list));
                assert(list_view(self.pairs()) =~= list_append(list_view(old(self).pairs()), k@, v));
            },
            None => {
                let mut list: Vec<T> = Vec::new();
                list.push(v);
                self.entries.push((k, list));
                assert(list_view(self.pairs()) =~= list_append(list_view(old(self).pairs()), k@, v));
            },
        }
    }
}

/// The key texts and values of `pairs`.
pub open spec fn pairs_view<T>(pairs: Seq<(String, T)>) -> Seq<(Seq<char>, T)> {
    pairs.map_values(|e: (String, T)| (e.0@, e.1))
}

/// Groups the values of `pairs` under their keys, keys in the order they
/// first come.
pub fn group<T>(pairs: Vec<(String, T)>) -> (m: OrderedMap<Vec<T>>)
    ensures
        list_view(m.pairs()) == group_pairs(pairs_view(pairs@)),
{
    let ghost spairs = pairs@;
    let ghost n = spairs.len();
    let total = pairs.len();
    let mut m: OrderedMap<Vec<T>> = OrderedMap::new();
    let mut rest = reversed(pairs);
    let mut i: usize = 0;
    assert(list_view(m.pairs()) =~= group_pairs(pairs_view(spairs.subrange(0, 0))));
    while rest.len() > 0
        invariant
            i + rest@.len() == n,
            n == spairs.len(),
            n == total,
            forall|j: int| 0 <= j < rest@.len() ==> #[trigger] rest@[j] == spairs[n - 1 - j],
            list_view(m.pairs()) == group_pairs(pairs_view(spairs.subrange(0, i as int))),
        decreases rest@.len(),
    {
        let (k, v) = rest.pop().unwrap();
        proof {
            assert(pairs_view(spairs.subrange(0, i + 1)).drop_last() =~= pairs_view(spairs.subrange(0, i as int)));
            assert(pairs_view(spairs.subrange(0, i + 1)).last() == (k@, v));
        }
        m.append(k, v);
        i = i + 1;
    }
    assert(spairs.subrange(0, n as int) =~= spairs);
    m
}

/// The elements of `v` in reverse order.
pub fn reversed<T>(v: Vec<T>) -> (r: Vec<T>)
    ensures
        r@ == v@.reverse(),
{
    let mut src = v;
    let mut out: Vec<T> = Vec::new();
    let ghost orig = src@;
    while src.len() > 0
        invariant
            out@.len() + src@.len() == orig.len(),
            src@ == orig.subrange(0, src@.len() as int),
            forall|j: int| 0 <= j < out@.len() ==> out@[j] == orig[orig.len() - 1 - j],
        decreases src@.len(),
    {
        let x = src.pop().unwrap();
        out.push(x);
    }
    assert(out@ =~= orig.reverse());
    out
}

} // verus!
