//! Decisions of API routes: listing a server's files, and grouping eggs
//! by nest for administrators.

use vstd::prelude::*;
use crate::errors::{ApiError, errors_body};
use crate::models::server::Server;
use crate::ignore_rules::spec_is_ignored;
use crate::validation::{texts, flag, note};
use crate::wings::client::{files_list_path, files_list_path_of};

verus! {

/// The query of a file listing: a page of a directory, sorted by the mode
/// named `sort`.
pub struct Params {
    pub page: i64,
    pub per_page: i64,
    pub directory: String,
    pub sort: String,
}

/// The fields of a listing's query that break their limits: the page is
/// at least 1, a page holds 1 to 100 entries.
pub open spec fn spec_params_errors(p: Params) -> Seq<Seq<char>> {
    flag(!(p.page >= 1), "page"@) + flag(!(1 <= p.per_page <= 100), "per_page"@)
}

impl Params {
    /// The fields that break their limits; empty when the query is valid.
    pub fn validate(&self) -> (errors: Vec<String>)
        ensures
            texts(errors@) == spec_params_errors(*self),
    {
        let mut errors: Vec<String> = Vec::new();
        note(&mut errors, self.page >= 1, "page");
        note(&mut errors, 1 <= self.per_page && self.per_page <= 100, "per_page");
        assert(texts(errors@) =~= spec_params_errors(*self));
        errors
    }
}

/// What a file listing does.
pub enum ListFiles {
    /// The query is invalid: answer "bad request" with this body.
    Invalid(String),
    /// The user may not read the server's files: the permission check
    /// refuses.
    Denied,
    /// The subuser may not see the directory: answer "not found" with
    /// this message.
    Hidden(String),
    /// Ask the daemon for this path.
    Fetch(String),
}

/// The message of a hidden directory.
pub open spec fn hidden_directory_message() -> Seq<char> {
    "directory not found"@
}

/// The ignored files that a listing passes to the daemon: the subuser's,
/// or none.
pub open spec fn ignored_files(s: Server) -> Seq<Seq<char>> {
    match s.subuser_ignored_files {
        Some(v) => texts(v@),
        None => Seq::empty(),
    }
}

/// Decides a listing of a server's files: the query is checked, then the
/// user's `files.read` permission (`may_read_files`), then the directory
/// against the subuser's ignored files, then the daemon is asked for the
/// page, the subuser's ignored files left out.
pub fn list_files(params: &Params, may_read_files: bool, server: &Server) -> (r: ListFiles)
    ensures
        match r {
            ListFiles::Invalid(body) => spec_params_errors(*params).len() > 0 && body@ == errors_body(
                spec_params_errors(*params),
            ),
            ListFiles::Denied => spec_params_errors(*params).len() == 0 && !may_read_files,
            ListFiles::Hidden(m) => spec_params_errors(*params).len() == 0 && may_read_files
                && server.is_ignored_spec(params.directory@) && m@ == hidden_directory_message(),
            ListFiles::Fetch(path) => spec_params_errors(*params).len() == 0 && may_read_files && !server.is_ignored_spec(
                params.directory@,
            ) && path@ == files_list_path_of(
                server.uuid,
                params.directory@,
                ignored_files(*server),
                params.per_page as u64,
                params.page as u64,
                params.sort@,
            ),
        },
{
    let errors = params.validate();
    if errors.len() > 0 {
        return ListFiles::Invalid(ApiError::new_strings_value(errors));
    }
    if !may_read_files {
        return ListFiles::Denied;
    }
    if server.is_ignored(params.directory.as_str(), true) {
        return ListFiles::Hidden("directory not found".to_owned());
    }
    let none: Vec<String> = Vec::new();
    let ignored = match &server.subuser_ignored_files {
        Some(v) => v,
        None => &none,
    };
    assert(ignored@.map_values(|s: String| s@) =~= ignored_files(*server));
    let path = files_list_path(
        server.uuid,
        params.directory.as_str(),
        ignored,
        params.per_page as u64,
        params.page as u64,
        params.sort.as_str(),
    );
    ListFiles::Fetch(path)
}

impl Server {
    /// Whether a subuser may not see the directory `path`.
    pub open spec fn is_ignored_spec(self, path: Seq<char>) -> bool {
        match self.subuser_ignored_files {
            Some(files) => spec_is_ignored(files@.map_values(|g: String| g@), path, true),
            None => false,
        }
    }
}

/// The keys of groups are in strictly ascending order.
pub open spec fn is_sorted_distinct(v: Seq<(u128, Seq<nat>)>) -> bool {
    forall|i: int, j: int| 0 <= i < j < v.len() ==> v[i].0 < v[j].0
}

/// The positions of the eggs of nest `nest` in `nests`, in order.
pub open spec fn eggs_of(nests: Seq<u128>, nest: u128) -> Seq<nat>
    decreases nests.len(),
{
    if nests.len() == 0 {
        Seq::empty()
    } else {
        eggs_of(nests.drop_last(), nest) + if nests.last() == nest {
            seq![(nests.len() - 1) as nat]
        } else {
            Seq::empty()
        }
    }
}

/// The groups of eggs: one for each nest that has eggs, in ascending order
/// of the nest, each listing the positions of its eggs in order.
pub open spec fn groups_valid(nests: Seq<u128>, groups: Seq<(u128, Seq<nat>)>) -> bool {
    &&& is_sorted_distinct(groups)
    &&& forall|i: int| 0 <= i < groups.len() ==> #[trigger] groups[i].1 == eggs_of(nests, groups[i].0)
    &&& forall|k: int|
        #![trigger nests[k]]
        0 <= k < nests.len() ==> exists|i: int| #![trigger groups[i]] 0 <= i < groups.len() && groups[i].0 == nests[k]
    &&& forall|i: int| 0 <= i < groups.len() ==> nests.contains(#[trigger] groups[i].0)
}

/// Positions as numbers.
pub open spec fn nats(v: Seq<usize>) -> Seq<nat> {
    v.map_values(|i: usize| i as nat)
}

/// Groups with their positions as numbers.
pub open spec fn groups_view(v: Seq<(u128, Vec<usize>)>) -> Seq<(u128, Seq<nat>)> {
    v.map_values(|g: (u128, Vec<usize>)| (g.0, nats(g.1@)))
}

proof fn lemma_eggs_of_absent(nests: Seq<u128>, nest: u128)
    requires
        !nests.contains(nest),
    ensures
        eggs_of(nests, nest) == Seq::<nat>::empty(),
    decreases nests.len(),
{
    if nests.len() > 0 {
        assert(!nests.drop_last().contains(nest)) by {
            if nests.drop_last().contains(nest) {
                let k = choose|k: int| 0 <= k < nests.drop_last().len() && nests.drop_last()[k] == nest;
                assert(nests[k] == nest);
            }
        }
        lemma_eggs_of_absent(nests.drop_last(), nest);
        assert(nests[nests.len() - 1] != nest);
    }
}

/// Groups eggs by nest: `nests[i]` is the nest of egg `i`.
pub fn group_eggs_by_nest(nests: &Vec<u128>) -> (r: Vec<(u128, Vec<usize>)>)
    ensures
        groups_valid(nests@, groups_view(r@)),
{
    let mut groups: Vec<(u128, Vec<usize>)> = Vec::new();
    let mut i: usize = 0;
    assert(groups_view(groups@) =~= Seq::<(u128, Seq<nat>)>::empty());
    while i < nests.len()
        invariant
            i <= nests@.len(),
            groups_valid(nests@.subrange(0, i as int), groups_view(groups@)),
        decreases nests@.len() - i,
    {
        let n = nests[i];
        let ghost pre = nests@.subrange(0, i as int);
        let ghost next = nests@.subrange(0, i + 1);
        let ghost gv = groups_view(groups@);
        assert(next.drop_last() =~= pre);
        assert(next.last() == n);
        let mut k: usize = 0;
        while k < groups.len() && groups[k].0 < n
            invariant
                k <= groups@.len(),
                gv == groups_view(groups@),
                forall|j: int| 0 <= j < k ==> groups@[j].0 < n,
            decreases groups@.len() - k,
        {
            k = k + 1;
        }
        proof {
            assert forall|j: int| 0 <= j < gv.len() implies #[trigger] gv[j].0 == groups@[j].0 by {}
            assert forall|q: int| 0 <= q < pre.len() implies next[q] == pre[q] by {}
            assert forall|key: u128| key != n implies #[trigger] eggs_of(next, key) == eggs_of(pre, key) by {
                assert(eggs_of(next, key) =~= eggs_of(pre, key) + Seq::<nat>::empty());
            }
            assert(eggs_of(next, n) == eggs_of(pre, n) + seq![i as nat]);
        }
        if k < groups.len() && groups[k].0 == n {
            let (key, mut members) = groups.remove(k);
            members.push(i);
            let ghost new_members = nats(members@);
            groups.insert(k, (key, members));
            proof {
                assert(nats(members@) =~= gv[k as int].1.push(i as nat));
                let gv2 = groups_view(groups@);
                assert(gv2 =~= gv.update(k as int, (n, gv[k as int].1.push(i as nat))));
                assert forall|a: int| 0 <= a < gv2.len() implies #[trigger] gv2[a].1 == eggs_of(next, gv2[a].0) by {
                    if a != k {
                        assert(gv2[a] == gv[a]);
                        assert(gv[a].0 != n);
                    }
                }
                assert forall|q: int| #![trigger next[q]] 0 <= q < next.len() implies exists|a: int|
                    #![trigger gv2[a]] 0 <= a < gv2.len() && gv2[a].0 == next[q] by {
                    if q < pre.len() {
                        let a = choose|a: int| 0 <= a < gv.len() && gv[a].0 == pre[q];
                        assert(gv2[a].0 == gv[a].0);
                    } else {
                        assert(gv2[k as int].0 == next[q]);
                    }
                }
                assert forall|a: int| 0 <= a < gv2.len() implies next.contains(#[trigger] gv2[a].0) by {
                    assert(gv2[a].0 == gv[a].0);
                    assert(pre.contains(gv[a].0));
                    let q = choose|q: int| 0 <= q < pre.len() && pre[q] == gv[a].0;
                    assert(next[q] == pre[q]);
                }
            }
        } else {
            let mut members: Vec<usize> = Vec::new();
            members.push(i);
            proof {
                assert(!pre.contains(n)) by {
                    if pre.contains(n) {
                        let q = choose|q: int| 0 <= q < pre.len() && pre[q] == n;
                        let a = choose|a: int| 0 <= a < gv.len() && #[trigger] gv[a].0 == pre[q];
                        if a < k {
                            assert(groups@[a].0 < n);
                        } else if a == k {
                        } else {
                            assert(gv[k as int].0 < gv[a].0);
                            assert(groups@[k as int].0 >= n);
                        }
                    }
                }
                lemma_eggs_of_absent(pre, n);
                assert(nats(members@) =~= seq![i as nat]);
            }
            groups.insert(k, (n, members));
            proof {
                let gv2 = groups_view(groups@);
                assert(gv2 =~= gv.insert(k as int, (n, seq![i as nat])));
                assert forall|a: int, b: int| 0 <= a < b < gv2.len() implies gv2[a].0 < gv2[b].0 by {
                    if a < k && b == k {
                        assert(groups@[a].0 < n);
                    } else if a == k && b > k {
                        assert(gv2[b] == gv[b - 1]);
                        if b - 1 > k {
                            assert(gv[k as int].0 < gv[b - 1].0);
                        }
                    } else if a < k && b > k {
                        assert(gv2[b] == gv[b - 1]);
                    } else if a > k {
                        assert(gv2[a] == gv[a - 1]);
                        assert(gv2[b] == gv[b - 1]);
                    }
                }
                assert forall|a: int| 0 <= a < gv2.len() implies #[trigger] gv2[a].1 == eggs_of(next, gv2[a].0) by {
                    if a < k {
                        assert(gv2[a] == gv[a]);
                        assert(gv[a].0 < n);
                    } else if a > k {
                        assert(gv2[a] == gv[a - 1]);
                        assert(gv[a - 1].0 != n) by {
                            assert(pre.contains(gv[a - 1].0));
                        }
                    }
                }
                assert forall|q: int| #![trigger next[q]] 0 <= q < next.len() implies exists|a: int|
                    #![trigger gv2[a]] 0 <= a < gv2.len() && gv2[a].0 == next[q] by {
                    if q < pre.len() {
                        let a = choose|a: int| 0 <= a < gv.len() && gv[a].0 == pre[q];
                        if a < k {
                            assert(gv2[a].0 == gv[a].0);
                        } else {
                            assert(gv2[a + 1].0 == gv[a].0);
                        }
                    } else {
                        assert(gv2[k as int].0 == next[q]);
                    }
                }
                assert forall|a: int| 0 <= a < gv2.len() implies next.contains(#[trigger] gv2[a].0) by {
                    if a == k {
                        assert(next[i as int] == n);
                    } else {
                        let b = if a < k {
                            a
                        } else {
                            a - 1
                        };
                        assert(gv2[a].0 == gv[b].0);
                        assert(pre.contains(gv[b].0));
                        let q = choose|q: int| 0 <= q < pre.len() && pre[q] == gv[b].0;
                        assert(next[q] == pre[q]);
                    }
                }
            }
        }
        i = i + 1;
    }
    assert(nests@.subrange(0, nests@.len() as int) =~= nests@);
    groups
}

/// `order` lists each position below `n` once.
pub open spec fn is_permutation(order: Seq<usize>, n: nat) -> bool {
    &&& order.len() == n
    &&& forall|j: int| 0 <= j < order.len() ==> order[j] < n
    &&& forall|a: int, b: int| 0 <= a < b < order.len() ==> order[a] != order[b]
}

/// `order` lists positions by ascending `created`.
pub open spec fn sorted_by(order: Seq<usize>, created: Seq<i64>) -> bool {
    forall|a: int, b: int| 0 <= a < b < order.len() ==> created[order[a] as int] <= created[order[b] as int]
}

/// The order in which groups are shown: by the creation time of their
/// nest, `created[i]` being that of group `i`.
pub fn order_by_created(created: &Vec<i64>) -> (r: Vec<usize>)
    ensures
        is_permutation(r@, created@.len()),
        sorted_by(r@, created@),
{
    let mut order: Vec<usize> = Vec::new();
    let mut i: usize = 0;
    while i < created.len()
        invariant
            i <= created@.len(),
            is_permutation(order@, i as nat),
            sorted_by(order@, created@),
        decreases created@.len() - i,
    {
        let c = created[i];
        let mut p: usize = 0;
        while p < order.len() && created[order[p]] <= c
            invariant
                p <= order@.len(),
                is_permutation(order@, i as nat),
                i < created@.len(),
                forall|j: int| 0 <= j < p ==> created@[order@[j] as int] <= c,
            decreases order@.len() - p,
        {
            p = p + 1;
        }
        let ghost old_order = order@;
        proof {
            assert forall|j: int| p <= j < old_order.len() implies c < created@[old_order[j] as int] by {
                if p < old_order.len() {
                    assert(created@[old_order[p as int] as int] > c);
                    if j > p {
                        assert(created@[old_order[p as int] as int] <= created@[old_order[j] as int]);
                    }
                }
            }
        }
        order.insert(p, i);
        proof {
            let o = order@;
            assert(o =~= old_order.insert(p as int, i));
            assert forall|j: int| 0 <= j < o.len() implies o[j] < i + 1 by {
                if j < p {
                    assert(o[j] == old_order[j]);
                } else if j > p {
                    assert(o[j] == old_order[j - 1]);
                }
            }
            assert forall|a: int, b: int| 0 <= a < b < o.len() implies o[a] != o[b] by {
                if a < p && b < p {
                    assert(o[a] == old_order[a] && o[b] == old_order[b]);
                } else if a < p && b == p {
                    assert(o[a] == old_order[a]);
                } else if a < p && b > p {
                    assert(o[a] == old_order[a] && o[b] == old_order[b - 1]);
                } else if a == p {
                    assert(o[b] == old_order[b - 1]);
                } else {
                    assert(o[a] == old_order[a - 1] && o[b] == old_order[b - 1]);
                }
            }
            assert forall|a: int, b: int| 0 <= a < b < o.len() implies created@[o[a] as int] <= created@[o[b] as int] by {
                if a < p && b < p {
                    assert(o[a] == old_order[a] && o[b] == old_order[b]);
                } else if a < p && b == p {
                    assert(o[a] == old_order[a]);
                } else if a < p && b > p {
                    assert(o[a] == old_order[a] && o[b] == old_order[b - 1]);
                } else if a == p {
                    assert(o[b] == old_order[b - 1]);
                } else {
                    assert(o[a] == old_order[a - 1] && o[b] == old_order[b - 1]);
                }
            }
        }
        i = i + 1;
    }
    order
}

} // verus!
