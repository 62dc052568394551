//! Insertion-ordered maps from text keys, held in `indexmap::IndexMap`:
//! maps of texts (docker images, environments, labels) and the ports of
//! each address of a server.

use vstd::prelude::*;
use crate::ordered_map::{find_list, group_pairs, list_append};
use crate::validation::texts;

verus! {

/// `indexmap::IndexMap`, declared so that maps can be held and passed;
/// its contents are known only through the names below.
#[verifier::external_type_specification]
#[verifier::external_body]
#[verifier::reject_recursive_types(K)]
#[verifier::reject_recursive_types(V)]
#[verifier::reject_recursive_types(S)]
pub struct ExIndexMap<K, V, S>(indexmap::IndexMap<K, V, S>);

/// A map of texts.
pub type TextMap = indexmap::IndexMap<String, String, std::hash::RandomState>;

/// A map from addresses to ports.
pub type PortMap = indexmap::IndexMap<String, Vec<u32>, std::hash::RandomState>;

/// The entries of a map of texts, keys and values as their characters, in
/// the map's order.
pub uninterp spec fn text_map_pairs(m: indexmap::IndexMap<String, String, std::hash::RandomState>) -> Seq<
    (Seq<char>, Seq<char>),
>;

/// The entries of a map of ports, keys as their characters and the lists
/// of ports, in the map's order.
pub uninterp spec fn port_map_pairs(m: indexmap::IndexMap<String, Vec<u32>, std::hash::RandomState>) -> Seq<
    (Seq<char>, Seq<u32>),
>;

/// The position of the first entry whose key is `k`.
pub open spec fn find_view<V>(m: Seq<(Seq<char>, V)>, k: Seq<char>) -> Option<nat>
    decreases m.len(),
{
    if m.len() == 0 {
        None
    } else {
        match find_view(m.drop_last(), k) {
            Some(i) => Some(i),
            None => if m.last().0 == k {
                Some((m.len() - 1) as nat)
            } else {
                None
            },
        }
    }
}

/// Inserting `k => v` as `IndexMap::insert` does: a present key keeps its
/// place and takes the new value; a new key goes last.
pub open spec fn view_insert<V>(m: Seq<(Seq<char>, V)>, k: Seq<char>, v: V) -> Seq<(Seq<char>, V)> {
    match find_view(m, k) {
        Some(i) => m.update(i as int, (m[i as int].0, v)),
        None => m.push((k, v)),
    }
}

/// Inserting `pairs` one after the other into an empty map.
pub open spec fn view_collect<V>(pairs: Seq<(Seq<char>, V)>) -> Seq<(Seq<char>, V)>
    decreases pairs.len(),
{
    if pairs.len() == 0 {
        Seq::empty()
    } else {
        view_insert(view_collect(pairs.drop_last()), pairs.last().0, pairs.last().1)
    }
}

/// No key occurs twice.
pub open spec fn view_keys_distinct<V>(m: Seq<(Seq<char>, V)>) -> bool {
    forall|i: int, j: int| 0 <= i < j < m.len() ==> m[i].0 != m[j].0
}

pub proof fn lemma_find_view<V>(m: Seq<(Seq<char>, V)>, k: Seq<char>)
    ensures
        match find_view(m, k) {
            Some(i) => i < m.len() && m[i as int].0 == k && forall|j: int| 0 <= j < i ==> m[j].0 != k,
            None => forall|j: int| 0 <= j < m.len() ==> m[j].0 != k,
        },
    decreases m.len(),
{
    if m.len() > 0 {
        let d = m.drop_last();
        lemma_find_view(d, k);
        assert forall|j: int| 0 <= j < d.len() implies d[j] == m[j] by {}
    }
}

proof fn lemma_find_list_view<T>(m: Seq<(Seq<char>, Seq<T>)>, k: Seq<char>)
    ensures
        find_list(m, k) == find_view(m, k),
    decreases m.len(),
{
    if m.len() > 0 {
        lemma_find_list_view(m.drop_last(), k);
    }
}

/// Grouping gives each key once.
pub proof fn lemma_group_pairs_distinct<T>(p: Seq<(Seq<char>, T)>)
    ensures
        view_keys_distinct(group_pairs(p)),
    decreases p.len(),
{
    if p.len() > 0 {
        let g = group_pairs(p.drop_last());
        lemma_group_pairs_distinct(p.drop_last());
        let k = p.last().0;
        lemma_find_list_view(g, k);
        lemma_find_view(g, k);
        let r = list_append(g, k, p.last().1);
        assert(r == group_pairs(p));
        match find_list(g, k) {
            Some(i) => {
                assert(forall|j: int| 0 <= j < g.len() ==> #[trigger] r[j].0 == g[j].0);
            },
            None => {
                assert(forall|j: int| 0 <= j < g.len() ==> #[trigger] r[j] == g[j]);
                assert(r[g.len() as int].0 == k);
            },
        }
    }
}

/// An empty map of texts (`IndexMap::new`).
///
/// Claims that the new map holds no entry.
#[verifier::external_body]
pub(crate) fn new_text_map() -> (m: TextMap)
    ensures
        text_map_pairs(m) == Seq::<(Seq<char>, Seq<char>)>::empty(),
{
    indexmap::IndexMap::new()
}

/// Inserts `k => v` (`IndexMap::insert`).
///
/// Claims what the crate documents: a key already present keeps its place
/// and takes the new value; a new key goes last.
#[verifier::external_body]
fn text_map_insert(m: &mut TextMap, k: String, v: String)
    ensures
        text_map_pairs(*final(m)) == view_insert(text_map_pairs(*old(m)), k@, v@),
{
    m.insert(k, v);
}

/// The values of a map of texts (`IndexMap::values`, each cloned).
///
/// Claims what the crate documents: the values come in the map's order.
#[verifier::external_body]
pub(crate) fn text_map_values(m: &TextMap) -> (r: Vec<String>)
    ensures
        texts(r@) == text_map_pairs(*m).map_values(|e: (Seq<char>, Seq<char>)| e.1),
{
    m.values().cloned().collect()
}

/// The keys and values of `pairs` as characters.
pub open spec fn text_pairs_view(pairs: Seq<(String, String)>) -> Seq<(Seq<char>, Seq<char>)> {
    pairs.map_values(|e: (String, String)| (e.0@, e.1@))
}

/// Builds a map of texts by inserting `pairs` in order.
pub fn text_map_collect(pairs: Vec<(String, String)>) -> (m: TextMap)
    ensures
        text_map_pairs(m) == view_collect(text_pairs_view(pairs@)),
{
    let ghost src = pairs@;
    let n = pairs.len();
    let mut rest = crate::ordered_map::reversed(pairs);
    let mut m = new_text_map();
    let mut i: usize = 0;
    while i < n
        invariant
            i <= n,
            n == src.len(),
            i + rest@.len() == n,
            forall|j: int| 0 <= j < rest@.len() ==> #[trigger] rest@[j] == src[n - 1 - j],
            text_map_pairs(m) == view_collect(text_pairs_view(src.subrange(0, i as int))),
        decreases n - i,
    {
        let (k, v) = rest.pop().unwrap();
        proof {
            let next = text_pairs_view(src.subrange(0, i + 1));
            assert(next.drop_last() =~= text_pairs_view(src.subrange(0, i as int)));
            assert(next.last() == (k@, v@));
        }
        text_map_insert(&mut m, k, v);
        i = i + 1;
    }
    assert(src.subrange(0, n as int) =~= src);
    m
}

/// An empty map of ports (`IndexMap::new`).
///
/// Claims that the new map holds no entry.
#[verifier::external_body]
fn new_port_map() -> (m: PortMap)
    ensures
        port_map_pairs(m) == Seq::<(Seq<char>, Seq<u32>)>::empty(),
{
    indexmap::IndexMap::new()
}

/// Inserts `k => ports` (`IndexMap::insert`).
///
/// Claims what the crate documents: a key already present keeps its place
/// and takes the new list; a new key goes last.
#[verifier::external_body]
fn port_map_insert(m: &mut PortMap, k: String, ports: Vec<u32>)
    ensures
        port_map_pairs(*final(m)) == view_insert(port_map_pairs(*old(m)), k@, ports@),
{
    m.insert(k, ports);
}

/// The keys and port lists of `groups` as characters and sequences.
pub open spec fn port_groups_view(groups: Seq<(String, Vec<u32>)>) -> Seq<(Seq<char>, Seq<u32>)> {
    groups.map_values(|e: (String, Vec<u32>)| (e.0@, e.1@))
}

/// Builds a map of ports from groups whose keys are distinct, in order.
pub fn port_map_of_groups(groups: Vec<(String, Vec<u32>)>) -> (m: PortMap)
    requires
        view_keys_distinct(port_groups_view(groups@)),
    ensures
        port_map_pairs(m) == port_groups_view(groups@),
{
    let ghost src = groups@;
    let ghost sv = port_groups_view(src);
    let n = groups.len();
    let mut rest = crate::ordered_map::reversed(groups);
    let mut m = new_port_map();
    let mut i: usize = 0;
    while i < n
        invariant
            i <= n,
            n == src.len(),
            sv == port_groups_view(src),
            view_keys_distinct(sv),
            i + rest@.len() == n,
            forall|j: int| 0 <= j < rest@.len() ==> #[trigger] rest@[j] == src[n - 1 - j],
            port_map_pairs(m) == sv.subrange(0, i as int),
        decreases n - i,
    {
        let (k, ports) = rest.pop().unwrap();
        proof {
            let pre = sv.subrange(0, i as int);
            assert(sv[i as int] == (k@, ports@));
            lemma_find_view(pre, k@);
            if find_view(pre, k@) is Some {
                let w = find_view(pre, k@)->0;
                assert(sv[w as int].0 == sv[i as int].0);
            }
            assert(view_insert(pre, k@, ports@) =~= sv.subrange(0, i + 1));
        }
        port_map_insert(&mut m, k, ports);
        i = i + 1;
    }
    assert(sv.subrange(0, n as int) =~= sv);
    m
}

} // verus!
