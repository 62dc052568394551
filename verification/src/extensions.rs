//! Extensions: which archives are pending and which applied extensions go
//! away at the next build, where extension archives lie, and who may
//! manage them.

use vstd::prelude::*;
use crate::errors::{ApiRefusal, CONFLICT, NOT_IMPLEMENTED};
use crate::paths::{extension, extension_of};
use crate::text::text_eq;
use crate::version::AppContainerType;
use crate::ordered_map::{map_insert, OrderedMap};

verus! {

/// A semantic version: numbers, pre-release and build texts.
pub struct ExtensionVersion {
    pub major: u64,
    pub minor: u64,
    pub patch: u64,
    pub pre: String,
    pub build: String,
}

/// Two versions are the same where every part is.
pub open spec fn same_version(a: ExtensionVersion, b: ExtensionVersion) -> bool {
    a.major == b.major && a.minor == b.minor && a.patch == b.patch && a.pre@ == b.pre@ && a.build@
        == b.build@
}

/// Tests two versions for equality.
pub fn versions_equal(a: &ExtensionVersion, b: &ExtensionVersion) -> (r: bool)
    ensures
        r == same_version(*a, *b),
{
    a.major == b.major && a.minor == b.minor && a.patch == b.patch && text_eq(a.pre.as_str(), b.pre.as_str())
        && text_eq(a.build.as_str(), b.build.as_str())
}

/// What the status of extensions reads of one: its package and version.
pub struct ExtensionSummary {
    pub package_name: String,
    pub version: ExtensionVersion,
}

/// The position of the first extension of `v` with package `name`.
pub open spec fn find_package(v: Seq<ExtensionSummary>, name: Seq<char>) -> Option<nat>
    decreases v.len(),
{
    if v.len() == 0 {
        None
    } else {
        match find_package(v.drop_last(), name) {
            Some(i) => Some(i),
            None => if v.last().package_name@ == name {
                Some((v.len() - 1) as nat)
            } else {
                None
            },
        }
    }
}

/// A local archive is up to date where the first applied extension of its
/// package has its version.
pub open spec fn up_to_date(l: ExtensionSummary, applied: Seq<ExtensionSummary>) -> bool {
    match find_package(applied, l.package_name@) {
        Some(a) => same_version(applied[a as int].version, l.version),
        None => false,
    }
}

/// Two versions are the same exactly when their major, minor and patch
/// numbers, pre-release and build texts are all equal; versions that
/// differ in any one of them, the patch number among them, differ.
pub proof fn law_same_version_fields(a: ExtensionVersion, b: ExtensionVersion)
    ensures
        same_version(a, b) <==> (a.major == b.major && a.minor == b.minor && a.patch == b.patch && a.pre@ == b.pre@
            && a.build@ == b.build@),
        a.patch != b.patch ==> !same_version(a, b),
        a.minor != b.minor ==> !same_version(a, b),
        a.major != b.major ==> !same_version(a, b),
        same_version(a, a),
{
}

/// A local archive is up to date only where the first applied extension
/// of its package has the archive's very version; one whose package is not
/// applied, or is applied in a version differing in any field, is not.
pub proof fn law_up_to_date_needs_same_version(l: ExtensionSummary, applied: Seq<ExtensionSummary>)
    ensures
        up_to_date(l, applied) ==> exists|a: int|
            0 <= a < applied.len() && applied[a].package_name@ == l.package_name@ && applied[a].version.major
                == l.version.major && applied[a].version.minor == l.version.minor && applied[a].version.patch
                == l.version.patch && applied[a].version.pre@ == l.version.pre@ && applied[a].version.build@
                == l.version.build@,
        (forall|j: int| 0 <= j < applied.len() ==> applied[j].package_name@ != l.package_name@) ==> !up_to_date(
            l,
            applied,
        ),
{
    lemma_find_package(applied, l.package_name@);
    if up_to_date(l, applied) {
        let a = find_package(applied, l.package_name@)->0 as int;
        assert(0 <= a < applied.len() && applied[a].package_name@ == l.package_name@);
    }
}

/// Exactly the local archives that are not up to date are pending: the
/// archive at position `i` is pending if and only if it is not up to date.
pub proof fn law_pending_exactly_outdated(local: Seq<ExtensionSummary>, applied: Seq<ExtensionSummary>, i: int)
    requires
        0 <= i < local.len(),
    ensures
        pending_of(local, applied).contains(i as nat) <==> !up_to_date(local[i], applied),
    decreases local.len(),
{
    lemma_pending_below(local, applied);
    let init = local.drop_last();
    let n = local.len() - 1;
    if i < n {
        law_pending_exactly_outdated(init, applied, i);
        assert(init[i] == local[i]);
        if !up_to_date(local.last(), applied) {
            let p = pending_of(init, applied);
            assert(pending_of(local, applied) == p + seq![n as nat]);
            if pending_of(local, applied).contains(i as nat) {
                let k = choose|k: int| 0 <= k < pending_of(local, applied).len() && pending_of(local, applied)[k] == i as nat;
                if k == p.len() {
                    assert(false);
                } else {
                    assert(p[k] == i as nat);
                }
            }
            if p.contains(i as nat) {
                let k = choose|k: int| 0 <= k < p.len() && p[k] == i as nat;
                assert(pending_of(local, applied)[k] == i as nat);
            }
        } else {
            assert(pending_of(local, applied) =~= pending_of(init, applied));
        }
    } else {
        lemma_pending_below(init, applied);
        let p = pending_of(init, applied);
        if !up_to_date(local.last(), applied) {
            assert(pending_of(local, applied)[p.len() as int] == n as nat);
        } else {
            assert(pending_of(local, applied) =~= p);
            if p.contains(n as nat) {
                let k = choose|k: int| 0 <= k < p.len() && p[k] == n as nat;
                assert(p[k] < n);
            }
        }
    }
}

/// Exactly the applied extensions whose package no local archive has are
/// dropped: the applied extension at position `i` is dropped if and only if
/// no local archive is of its package.
pub proof fn law_dropped_exactly_unmatched(local: Seq<ExtensionSummary>, applied: Seq<ExtensionSummary>, i: int)
    requires
        0 <= i < applied.len(),
    ensures
        dropped_of(local, applied).contains(i as nat) <==> forall|j: int|
            0 <= j < local.len() ==> local[j].package_name@ != applied[i].package_name@,
    decreases applied.len(),
{
    lemma_find_package(local, applied[i].package_name@);
    lemma_dropped_below(local, applied);
    let init = applied.drop_last();
    let n = applied.len() - 1;
    let p = dropped_of(local, init);
    let tail = if find_package(local, applied.last().package_name@) is Some {
        Seq::<nat>::empty()
    } else {
        seq![n as nat]
    };
    assert(dropped_of(local, applied) == p + tail);
    lemma_dropped_below(local, init);
    if i < n {
        law_dropped_exactly_unmatched(local, init, i);
        assert(init[i] == applied[i]);
        if dropped_of(local, applied).contains(i as nat) {
            let k = choose|k: int| 0 <= k < dropped_of(local, applied).len() && dropped_of(local, applied)[k] == i as nat;
            if k >= p.len() {
                assert(tail[k - p.len()] == n as nat);
            } else {
                assert(p[k] == i as nat);
            }
        }
        if p.contains(i as nat) {
            let k = choose|k: int| 0 <= k < p.len() && p[k] == i as nat;
            assert(dropped_of(local, applied)[k] == i as nat);
        }
    } else {
        if tail.len() == 1 {
            assert(dropped_of(local, applied)[p.len() as int] == n as nat);
        }
        if dropped_of(local, applied).contains(i as nat) {
            let k = choose|k: int| 0 <= k < dropped_of(local, applied).len() && dropped_of(local, applied)[k] == i as nat;
            if k < p.len() {
                assert(p[k] < n);
            }
        }
    }
}

proof fn lemma_dropped_below(local: Seq<ExtensionSummary>, applied: Seq<ExtensionSummary>)
    ensures
        forall|k: int| 0 <= k < dropped_of(local, applied).len() ==> #[trigger] dropped_of(local, applied)[k] < applied.len(),
    decreases applied.len(),
{
    if applied.len() > 0 {
        let init = applied.drop_last();
        lemma_dropped_below(local, init);
        let p = dropped_of(local, init);
        let tail = if find_package(local, applied.last().package_name@) is Some {
            Seq::<nat>::empty()
        } else {
            seq![(applied.len() - 1) as nat]
        };
        assert(dropped_of(local, applied) == p + tail);
        assert forall|k: int| 0 <= k < dropped_of(local, applied).len() implies #[trigger] dropped_of(local, applied)[k]
            < applied.len() by {
            if k < p.len() {
                assert(dropped_of(local, applied)[k] == p[k]);
            } else {
                assert(dropped_of(local, applied)[k] == tail[k - p.len()]);
            }
        }
    }
}

proof fn lemma_pending_below(local: Seq<ExtensionSummary>, applied: Seq<ExtensionSummary>)
    ensures
        forall|k: int| 0 <= k < pending_of(local, applied).len() ==> #[trigger] pending_of(local, applied)[k] < local.len(),
    decreases local.len(),
{
    if local.len() > 0 {
        let init = local.drop_last();
        lemma_pending_below(init, applied);
        let p = pending_of(init, applied);
        let tail = if up_to_date(local.last(), applied) {
            Seq::<nat>::empty()
        } else {
            seq![(local.len() - 1) as nat]
        };
        assert(pending_of(local, applied) == p + tail);
        assert forall|k: int| 0 <= k < pending_of(local, applied).len() implies #[trigger] pending_of(local, applied)[k]
            < local.len() by {
            if k < p.len() {
                assert(pending_of(local, applied)[k] == p[k]);
            } else {
                assert(pending_of(local, applied)[k] == tail[k - p.len()]);
            }
        }
    }
}

/// The local archives that are pending, as positions in `local`: every one
/// that is not up to date, in order.
pub open spec fn pending_of(local: Seq<ExtensionSummary>, applied: Seq<ExtensionSummary>) -> Seq<nat>
    decreases local.len(),
{
    if local.len() == 0 {
        Seq::empty()
    } else {
        pending_of(local.drop_last(), applied) + if up_to_date(local.last(), applied) {
            Seq::empty()
        } else {
            seq![(local.len() - 1) as nat]
        }
    }
}

/// The applied extensions replaced by a newer or older archive, as
/// positions in `applied`, one for each local archive whose package is
/// applied in another version, in the order of the archives.
pub open spec fn replaced_of(local: Seq<ExtensionSummary>, applied: Seq<ExtensionSummary>) -> Seq<nat>
    decreases local.len(),
{
    if local.len() == 0 {
        Seq::empty()
    } else {
        let l = local.last();
        replaced_of(local.drop_last(), applied) + match find_package(applied, l.package_name@) {
            Some(a) => if same_version(applied[a as int].version, l.version) {
                Seq::empty()
            } else {
                seq![a]
            },
            None => Seq::empty(),
        }
    }
}

/// The applied extensions that no local archive has, as positions in
/// `applied`, in order.
pub open spec fn dropped_of(local: Seq<ExtensionSummary>, applied: Seq<ExtensionSummary>) -> Seq<nat>
    decreases applied.len(),
{
    if applied.len() == 0 {
        Seq::empty()
    } else {
        dropped_of(local, applied.drop_last()) + if find_package(local, applied.last().package_name@) is Some {
            Seq::empty()
        } else {
            seq![(applied.len() - 1) as nat]
        }
    }
}

proof fn lemma_find_package(v: Seq<ExtensionSummary>, name: Seq<char>)
    ensures
        match find_package(v, name) {
            Some(i) => i < v.len() && v[i as int].package_name@ == name && forall|j: int|
                0 <= j < i ==> v[j].package_name@ != name,
            None => forall|j: int| 0 <= j < v.len() ==> v[j].package_name@ != name,
        },
    decreases v.len(),
{
    if v.len() > 0 {
        let d = v.drop_last();
        lemma_find_package(d, name);
        assert forall|j: int| 0 <= j < d.len() implies d[j] == v[j] by {}
    }
}

/// Finds the first extension of `v` with package `name`.
fn find_package_in(v: &Vec<ExtensionSummary>, name: &String) -> (r: Option<usize>)
    ensures
        match r {
            Some(i) => find_package(v@, name@) == Some(i as nat),
            None => find_package(v@, name@) is None,
        },
{
    let mut i: usize = 0;
    while i < v.len()
        invariant
            i <= v@.len(),
            forall|j: int| 0 <= j < i ==> v@[j].package_name@ != name@,
        decreases v@.len() - i,
    {
        if text_eq(v[i].package_name.as_str(), name.as_str()) {
            proof {
                lemma_find_package(v@, name@);
                let f = find_package(v@, name@);
                if f is Some {
                    let k = f->0;
                    if k < i {
                        assert(v@[k as int].package_name@ != name@);
                    } else if k > i {
                        assert(v@[i as int].package_name@ == name@);
                    }
                }
            }
            return Some(i);
        }
        i = i + 1;
    }
    proof {
        lemma_find_package(v@, name@);
        let f = find_package(v@, name@);
        if f is Some {
            let k = f->0;
            assert(v@[k as int].package_name@ == name@);
        }
    }
    None
}

/// The changes that the next build makes.
pub struct ExtensionChanges {
    /// Positions in the local archives.
    pub pending: Vec<usize>,
    /// Positions in the applied extensions.
    pub removed: Vec<usize>,
}

/// The positions as numbers.
pub open spec fn positions(v: Seq<usize>) -> Seq<nat> {
    v.map_values(|i: usize| i as nat)
}

/// Compares the local archives with the applied extensions: the archives
/// that are not up to date are pending; the applied extensions that an
/// archive replaces, and then those that no archive has, are removed.
pub fn extension_changes(local: &Vec<ExtensionSummary>, applied: &Vec<ExtensionSummary>) -> (r: ExtensionChanges)
    ensures
        positions(r.pending@) == pending_of(local@, applied@),
        positions(r.removed@) == replaced_of(local@, applied@) + dropped_of(local@, applied@),
{
    let mut pending: Vec<usize> = Vec::new();
    let mut removed: Vec<usize> = Vec::new();
    let mut i: usize = 0;
    while i < local.len()
        invariant
            i <= local@.len(),
            positions(pending@) == pending_of(local@.subrange(0, i as int), applied@),
            positions(removed@) == replaced_of(local@.subrange(0, i as int), applied@),
        decreases local@.len() - i,
    {
        let ghost pre = local@.subrange(0, i as int);
        let ghost next = local@.subrange(0, i + 1);
        assert(next.drop_last() =~= pre);
        assert(next.last() == local@[i as int]);
        proof {
            lemma_find_package(applied@, local@[i as int].package_name@);
        }
        match find_package_in(applied, &local[i].package_name) {
            Some(a) => {
                if versions_equal(&applied[a].version, &local[i].version) {
                    assert(positions(pending@) =~= pending_of(next, applied@));
                    assert(positions(removed@) =~= replaced_of(next, applied@));
                } else {
                    removed.push(a);
                    pending.push(i);
                    assert(positions(pending@) =~= pending_of(next, applied@));
                    assert(positions(removed@) =~= replaced_of(next, applied@));
                }
            },
            None => {
                pending.push(i);
                assert(positions(pending@) =~= pending_of(next, applied@));
                assert(positions(removed@) =~= replaced_of(next, applied@));
            },
        }
        i = i + 1;
    }
    assert(local@.subrange(0, local@.len() as int) =~= local@);
    let ghost replaced = positions(removed@);
    let mut j: usize = 0;
    while j < applied.len()
        invariant
            j <= applied@.len(),
            positions(removed@) == replaced + dropped_of(local@, applied@.subrange(0, j as int)),
        decreases applied@.len() - j,
    {
        let ghost pre = applied@.subrange(0, j as int);
        let ghost next = applied@.subrange(0, j + 1);
        assert(next.drop_last() =~= pre);
        assert(next.last() == applied@[j as int]);
        let ghost before = positions(removed@);
        let found = find_package_in(local, &applied[j].package_name);
        assert(dropped_of(local@, next) == dropped_of(local@, pre) + if find_package(
            local@,
            applied@[j as int].package_name@,
        ) is Some {
            Seq::<nat>::empty()
        } else {
            seq![j as nat]
        });
        if found.is_none() {
            removed.push(j);
            assert(positions(removed@) =~= before.push(j as nat));
            assert(replaced + dropped_of(local@, next) =~= (replaced + dropped_of(local@, pre)).push(j as nat));
        } else {
            assert(replaced + dropped_of(local@, next) =~= replaced + dropped_of(local@, pre));
        }
        j = j + 1;
    }
    assert(applied@.subrange(0, applied@.len() as int) =~= applied@);
    ExtensionChanges { pending, removed }
}

/// No two extensions of `v` share a package.
pub open spec fn packages_distinct(v: Seq<ExtensionSummary>) -> bool {
    forall|i: int, j: int|
        0 <= i < j < v.len() ==> v[i].package_name@ != v[j].package_name@
}

proof fn lemma_prefix_of_self_settled(v: Seq<ExtensionSummary>, n: int)
    requires
        packages_distinct(v),
        0 <= n <= v.len(),
    ensures
        pending_of(v.subrange(0, n), v) == Seq::<nat>::empty(),
        replaced_of(v.subrange(0, n), v) == Seq::<nat>::empty(),
        dropped_of(v, v.subrange(0, n)) == Seq::<nat>::empty(),
    decreases n,
{
    if n > 0 {
        let p = v.subrange(0, n);
        assert(p.drop_last() =~= v.subrange(0, n - 1));
        lemma_prefix_of_self_settled(v, n - 1);
        let e = v[n - 1];
        assert(p.last() == e);
        lemma_find_package(v, e.package_name@);
        let k = find_package(v, e.package_name@)->0;
        if k != n - 1 {
            assert(v[n - 1].package_name@ == e.package_name@);
        }
        assert(same_version(v[k as int].version, e.version));
        assert(up_to_date(e, v));
        assert(pending_of(p, v) =~= Seq::<nat>::empty());
        assert(replaced_of(p, v) =~= Seq::<nat>::empty());
        assert(dropped_of(v, p) =~= Seq::<nat>::empty());
    }
}

/// Once the applied extensions are the local archives themselves, a build
/// has nothing left to do: nothing is pending and nothing is removed.
pub proof fn law_applied_archives_are_settled(v: Seq<ExtensionSummary>)
    requires
        packages_distinct(v),
    ensures
        pending_of(v, v) == Seq::<nat>::empty(),
        replaced_of(v, v) + dropped_of(v, v) == Seq::<nat>::empty(),
{
    lemma_prefix_of_self_settled(v, v.len() as int);
    assert(v.subrange(0, v.len() as int) =~= v);
    assert(replaced_of(v, v) + dropped_of(v, v) =~= Seq::<nat>::empty());
}

/// The routers that extensions add, one for each part of the panel's
/// routes; `R` is the router type. A part no extension has added to is
/// `None`.
pub struct ExtensionRouteBuilder<R> {
    pub global: Option<R>,
    pub api_admin: Option<R>,
    pub api_auth: Option<R>,
    pub api_client: Option<R>,
    pub api_client_servers_server: Option<R>,
    pub api_remote: Option<R>,
    pub api_remote_servers_server: Option<R>,
}

/// Where an extension's router starts from: the part's router so far, or
/// `empty` (a router over the panel's state) where there is none yet.
pub open spec fn router_start<R>(slot: Option<R>, empty: R) -> R {
    match slot {
        Some(r) => r,
        None => empty,
    }
}

/// Hands a part's router (or `empty`) to `router` and keeps what it gives.
fn add_router<R, F: FnOnce(R) -> R>(slot: Option<R>, empty: R, router: F) -> (r: Option<R>)
    requires
        router.requires((router_start(slot, empty),)),
    ensures
        r matches Some(x) && router.ensures((router_start(slot, empty),), x),
{
    let start = match slot {
        Some(x) => x,
        None => empty,
    };
    Some(router(start))
}

impl<R> ExtensionRouteBuilder<R> {
    /// A builder with no routers yet.
    pub fn new() -> (r: Self)
        ensures
            r.global is None,
            r.api_admin is None,
            r.api_auth is None,
            r.api_client is None,
            r.api_client_servers_server is None,
            r.api_remote is None,
            r.api_remote_servers_server is None,
    {
        ExtensionRouteBuilder { global: None, api_admin: None, api_auth: None, api_client: None, api_client_servers_server: None, api_remote: None, api_remote_servers_server: None }
    }

    /// Adds a router for requests to `/`: `router` is handed the router
    /// added so far for that part, or `empty` (a router over the panel's
    /// state) where there is none, and what it gives takes its place.
    pub fn add_global_router<F: FnOnce(R) -> R>(self, empty: R, router: F) -> (r: Self)
        requires
            router.requires((router_start(self.global, empty),)),
        ensures
            r.global matches Some(x) && router.ensures((router_start(self.global, empty),), x),
            r.api_admin == self.api_admin,
            r.api_auth == self.api_auth,
            r.api_client == self.api_client,
            r.api_client_servers_server == self.api_client_servers_server,
            r.api_remote == self.api_remote,
            r.api_remote_servers_server == self.api_remote_servers_server,
    {
        let mut b = self;
        let slot = b.global.take();
        b.global = add_router(slot, empty, router);
        b
    }

    /// Adds a router for requests to `/api/admin`: `router` is handed the router
    /// added so far for that part, or `empty` (a router over the panel's
    /// state) where there is none, and what it gives takes its place.
    pub fn add_admin_api_router<F: FnOnce(R) -> R>(self, empty: R, router: F) -> (r: Self)
        requires
            router.requires((router_start(self.api_admin, empty),)),
        ensures
            r.api_admin matches Some(x) && router.ensures((router_start(self.api_admin, empty),), x),
            r.global == self.global,
            r.api_auth == self.api_auth,
            r.api_client == self.api_client,
            r.api_client_servers_server == self.api_client_servers_server,
            r.api_remote == self.api_remote,
            r.api_remote_servers_server == self.api_remote_servers_server,
    {
        let mut b = self;
        let slot = b.api_admin.take();
        b.api_admin = add_router(slot, empty, router);
        b
    }

    /// Adds a router for requests to `/api/auth`: `router` is handed the router
    /// added so far for that part, or `empty` (a router over the panel's
    /// state) where there is none, and what it gives takes its place.
    pub fn add_auth_api_router<F: FnOnce(R) -> R>(self, empty: R, router: F) -> (r: Self)
        requires
            router.requires((router_start(self.api_auth, empty),)),
        ensures
            r.api_auth matches Some(x) && router.ensures((router_start(self.api_auth, empty),), x),
            r.global == self.global,
            r.api_admin == self.api_admin,
            r.api_client == self.api_client,
            r.api_client_servers_server == self.api_client_servers_server,
            r.api_remote == self.api_remote,
            r.api_remote_servers_server == self.api_remote_servers_server,
    {
        let mut b = self;
        let slot = b.api_auth.take();
        b.api_auth = add_router(slot, empty, router);
        b
    }

    /// Adds a router for requests to `/api/client`: `router` is handed the router
    /// added so far for that part, or `empty` (a router over the panel's
    /// state) where there is none, and what it gives takes its place.
    pub fn add_client_api_router<F: FnOnce(R) -> R>(self, empty: R, router: F) -> (r: Self)
        requires
            router.requires((router_start(self.api_client, empty),)),
        ensures
            r.api_client matches Some(x) && router.ensures((router_start(self.api_client, empty),), x),
            r.global == self.global,
            r.api_admin == self.api_admin,
            r.api_auth == self.api_auth,
            r.api_client_servers_server == self.api_client_servers_server,
            r.api_remote == self.api_remote,
            r.api_remote_servers_server == self.api_remote_servers_server,
    {
        let mut b = self;
        let slot = b.api_client.take();
        b.api_client = add_router(slot, empty, router);
        b
    }

    /// Adds a router for requests to `/api/client/servers/{server}`: `router` is handed the router
    /// added so far for that part, or `empty` (a router over the panel's
    /// state) where there is none, and what it gives takes its place.
    pub fn add_client_server_api_router<F: FnOnce(R) -> R>(self, empty: R, router: F) -> (r: Self)
        requires
            router.requires((router_start(self.api_client_servers_server, empty),)),
        ensures
            r.api_client_servers_server matches Some(x) && router.ensures((router_start(self.api_client_servers_server, empty),), x),
            r.global == self.global,
            r.api_admin == self.api_admin,
            r.api_auth == self.api_auth,
            r.api_client == self.api_client,
            r.api_remote == self.api_remote,
            r.api_remote_servers_server == self.api_remote_servers_server,
    {
        let mut b = self;
        let slot = b.api_client_servers_server.take();
        b.api_client_servers_server = add_router(slot, empty, router);
        b
    }

    /// Adds a router for requests to `/api/remote`: `router` is handed the router
    /// added so far for that part, or `empty` (a router over the panel's
    /// state) where there is none, and what it gives takes its place.
    pub fn add_remote_api_router<F: FnOnce(R) -> R>(self, empty: R, router: F) -> (r: Self)
        requires
            router.requires((router_start(self.api_remote, empty),)),
        ensures
            r.api_remote matches Some(x) && router.ensures((router_start(self.api_remote, empty),), x),
            r.global == self.global,
            r.api_admin == self.api_admin,
            r.api_auth == self.api_auth,
            r.api_client == self.api_client,
            r.api_client_servers_server == self.api_client_servers_server,
            r.api_remote_servers_server == self.api_remote_servers_server,
    {
        let mut b = self;
        let slot = b.api_remote.take();
        b.api_remote = add_router(slot, empty, router);
        b
    }

    /// Adds a router for requests to `/api/remote/servers/{server}`: `router` is handed the router
    /// added so far for that part, or `empty` (a router over the panel's
    /// state) where there is none, and what it gives takes its place.
    pub fn add_remote_server_api_router<F: FnOnce(R) -> R>(self, empty: R, router: F) -> (r: Self)
        requires
            router.requires((router_start(self.api_remote_servers_server, empty),)),
        ensures
            r.api_remote_servers_server matches Some(x) && router.ensures((router_start(self.api_remote_servers_server, empty),), x),
            r.global == self.global,
            r.api_admin == self.api_admin,
            r.api_auth == self.api_auth,
            r.api_client == self.api_client,
            r.api_client_servers_server == self.api_client_servers_server,
            r.api_remote == self.api_remote,
    {
        let mut b = self;
        let slot = b.api_remote_servers_server.take();
        b.api_remote_servers_server = add_router(slot, empty, router);
        b
    }
}

/// The permission groups that extensions add, by group name: those of
/// users, of administrators and of servers. `G` is what a group holds.
pub struct ExtensionPermissionsBuilder<G> {
    pub user_permissions: OrderedMap<G>,
    pub admin_permissions: OrderedMap<G>,
    pub server_permissions: OrderedMap<G>,
}

impl<G> ExtensionPermissionsBuilder<G> {
    /// A builder over the three maps of groups.
    pub fn new(
        user_permissions: OrderedMap<G>,
        admin_permissions: OrderedMap<G>,
        server_permissions: OrderedMap<G>,
    ) -> (r: Self)
        ensures
            r.user_permissions == user_permissions,
            r.admin_permissions == admin_permissions,
            r.server_permissions == server_permissions,
    {
        ExtensionPermissionsBuilder { user_permissions, admin_permissions, server_permissions }
    }

    /// Adds a group to the users' permissions: a name already there keeps
    /// its place and takes the new group.
    pub fn add_user_permission_group(self, group_name: &str, group: G) -> (r: Self)
        ensures
            exists|k: String|
                k@ == group_name@ && r.user_permissions.pairs() == map_insert(
                    self.user_permissions.pairs(),
                    k,
                    group,
                ),
            r.admin_permissions == self.admin_permissions,
            r.server_permissions == self.server_permissions,
    {
        let mut b = self;
        let k = group_name.to_owned();
        b.user_permissions.insert(k, group);
        b
    }

    /// Adds a group to the administrators' permissions.
    pub fn add_admin_permission_group(self, group_name: &str, group: G) -> (r: Self)
        ensures
            exists|k: String|
                k@ == group_name@ && r.admin_permissions.pairs() == map_insert(
                    self.admin_permissions.pairs(),
                    k,
                    group,
                ),
            r.user_permissions == self.user_permissions,
            r.server_permissions == self.server_permissions,
    {
        let mut b = self;
        let k = group_name.to_owned();
        b.admin_permissions.insert(k, group);
        b
    }

    /// Adds a group to the servers' permissions.
    pub fn add_server_permission_group(self, group_name: &str, group: G) -> (r: Self)
        ensures
            exists|k: String|
                k@ == group_name@ && r.server_permissions.pairs() == map_insert(
                    self.server_permissions.pairs(),
                    k,
                    group,
                ),
            r.user_permissions == self.user_permissions,
            r.admin_permissions == self.admin_permissions,
    {
        let mut b = self;
        let k = group_name.to_owned();
        b.server_permissions.insert(k, group);
        b
    }
}

/// The refusal of extension management outside the official heavy
/// container (answered as "not implemented").
pub open spec fn heavy_only_message() -> Seq<char> {
    "extension management is only available in the official heavy container"@
}

/// Extensions are managed only in the official heavy container; elsewhere
/// the request is answered "not implemented".
pub fn check_extension_management(container: AppContainerType) -> (r: Result<(), ApiRefusal>)
    ensures
        (container == AppContainerType::OfficialHeavy) <==> r is Ok,
        r matches Err(m) ==> m.status == NOT_IMPLEMENTED && m.message@ == heavy_only_message(),
{
    match container {
        AppContainerType::OfficialHeavy => Ok(()),
        _ => Err(
            ApiRefusal {
                status: NOT_IMPLEMENTED,
                message: "extension management is only available in the official heavy container".to_owned(),
            },
        ),
    }
}

/// A directory entry is an extension archive where it is a file with the
/// extension `zip`.
pub fn is_extension_archive(is_file: bool, path: &str) -> (r: bool)
    ensures
        r == (is_file && extension_of(path@) == Some("zip"@)),
{
    if !is_file {
        return false;
    }
    match extension(path) {
        Some(e) => text_eq(e.as_str(), "zip"),
        None => false,
    }
}

/// The refusal of a rebuild while one runs (answered as a conflict).
pub open spec fn rebuild_running_message() -> Seq<char> {
    "extension rebuild is already in progress"@
}

/// A rebuild starts only where none holds the build lock; otherwise the
/// request is answered with a conflict.
pub fn check_rebuild(locked: bool) -> (r: Result<(), ApiRefusal>)
    ensures
        !locked <==> r is Ok,
        r matches Err(m) ==> m.status == CONFLICT && m.message@ == rebuild_running_message(),
{
    if locked {
        return Err(ApiRefusal { status: CONFLICT, message: "extension rebuild is already in progress".to_owned() });
    }
    Ok(())
}

} // verus!
