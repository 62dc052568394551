//! The cache's decisions: rate limits, the keys and lifetimes of entries
//! and locks, the statistics it keeps, and how it reads the version of
//! its server.

use vstd::prelude::*;
use crate::errors::{ApiRefusal, TOO_MANY_REQUESTS};
use crate::text::{chars_of, char_range, has_prefix, push_str, push_signed_decimal, signed_decimal, starts_with, string_from_chars};
use crate::paths::{first_index_in, first_index_of, lemma_first_index_of};

verus! {

/// The key under which a client's use of a limit is counted.
pub fn ratelimit_key(limit_identifier: &str, client: &str) -> (r: String)
    ensures
        r@ == "ratelimit::"@ + limit_identifier@ + "::"@ + client@,
{
    let mut r = "ratelimit::".to_owned();
    push_str(&mut r, limit_identifier);
    push_str(&mut r, "::");
    push_str(&mut r, client);
    r
}

/// What one request does to its rate limit: the count it stores, the
/// moment (Unix seconds) the count expires, and, where the limit is
/// reached, the refusal.
pub struct RatelimitDecision {
    pub used: u64,
    pub expire_at: u64,
    pub refusal: Option<ApiRefusal>,
}

/// The moment a count expires: the stored expiry where it lies more than
/// two seconds ahead, else a new window from now.
pub open spec fn spec_expire_at(now: i64, expiry: i64, window: u64) -> int {
    if expiry > now + 2 {
        expiry as u64 as int
    } else {
        now as u64 + window
    }
}

/// The refusal of a request over its limit; `retry_in` is the stored
/// expiry less now, as the panel reports it.
pub open spec fn ratelimit_message(retry_in: int) -> Seq<char> {
    "you are ratelimited, retry in "@ + signed_decimal(retry_in) + "s"@
}

/// A request finds `used_before` requests counted and passes where the
/// count with it stays under the limit.
pub open spec fn admitted(used_before: nat, limit: nat) -> bool {
    used_before + 1 < limit
}

/// Of `n` requests in one window, each counted after the ones before it
/// from an empty count, the number that pass.
pub open spec fn admitted_count(n: nat, limit: nat) -> nat
    decreases n,
{
    if n == 0 {
        0
    } else {
        admitted_count((n - 1) as nat, limit) + if admitted((n - 1) as nat, limit) {
            1nat
        } else {
            0nat
        }
    }
}

/// In one window a limit of `limit` lets the first `limit - 1` requests
/// pass and refuses every later one (a limit of 0 or 1 refuses all).
pub proof fn law_window_admits(n: nat, limit: nat)
    ensures
        admitted_count(n, limit) == if limit == 0 || n < limit {
            if limit == 0 { 0 } else { n }
        } else {
            (limit - 1) as nat
        },
    decreases n,
{
    if n > 0 {
        law_window_admits((n - 1) as nat, limit);
    }
}

/// Counts one request against a limit of `limit` requests per `window`
/// seconds. `now` is the time, `expiry` the count's stored expiry (0
/// where it could not be read) and `used_before` the stored count (0
/// likewise). A request is refused once the count reaches the limit.
pub fn ratelimit(now: i64, expiry: i64, used_before: u64, limit: u64, window: u64) -> (r: RatelimitDecision)
    requires
        now <= i64::MAX - 2,
        expiry <= now + 2 ==> now as u64 + window <= u64::MAX,
        used_before < u64::MAX,
        i64::MIN <= expiry - now <= i64::MAX,
    ensures
        r.used == used_before + 1,
        r.expire_at == spec_expire_at(now, expiry, window),
        r.refusal is None <==> admitted(used_before as nat, limit as nat),
        match r.refusal {
            Some(m) => r.used >= limit && m.status == TOO_MANY_REQUESTS && m.message@ == ratelimit_message(
                expiry - now,
            ),
            None => r.used < limit,
        },
{
    let expire_at: u64 = if expiry > now + 2 {
        expiry as u64
    } else {
        now as u64 + window
    };
    let used = used_before + 1;
    let refusal = if used >= limit {
        let mut m = "you are ratelimited, retry in ".to_owned();
        push_signed_decimal(&mut m, expiry - now);
        push_str(&mut m, "s");
        Some(ApiRefusal { status: TOO_MANY_REQUESTS, message: m })
    } else {
        None
    };
    RatelimitDecision { used, expire_at, refusal }
}

/// The key of a lock in the cache's server.
pub fn lock_key(lock_id: &str) -> (r: String)
    ensures
        r@ == "lock::"@ + lock_id@,
{
    let mut r = "lock::".to_owned();
    push_str(&mut r, lock_id);
    r
}

/// A lock lives 30 seconds unless its holder says otherwise.
pub fn lock_ttl(ttl: Option<u64>) -> (r: u64)
    ensures
        r == match ttl {
            Some(t) => t,
            None => 30,
        },
{
    match ttl {
        Some(t) => t,
        None => 30,
    }
}

/// What a lock waiter does after a failed attempt.
#[derive(Clone, Copy, PartialEq, Eq, Debug)]
pub enum LockWait {
    /// The deadline passed: stop waiting.
    GiveUp,
    /// Sleep this many milliseconds, then try again.
    Sleep(u64),
}

/// After a failed attempt: without a deadline, sleep 50 ms; with one, give
/// up when no time is left, else sleep 50 ms or what is left, whichever
/// is less. `remaining_ms` is the time left before the deadline.
pub fn lock_wait(remaining_ms: Option<u64>) -> (r: LockWait)
    ensures
        r == match remaining_ms {
            None => LockWait::Sleep(50),
            Some(0) => LockWait::GiveUp,
            Some(m) => LockWait::Sleep(if m < 50 {
                m
            } else {
                50
            }),
        },
{
    match remaining_ms {
        None => LockWait::Sleep(50),
        Some(m) => if m == 0 {
            LockWait::GiveUp
        } else if m < 50 {
            LockWait::Sleep(m)
        } else {
            LockWait::Sleep(50)
        },
    }
}

/// How long an entry stays in the process's own cache, in milliseconds:
/// its lifetime where that cache is in use, else 50 ms.
pub fn local_ttl_ms(use_internal_cache: bool, ttl_secs: u64) -> (r: u128)
    ensures
        r == if use_internal_cache {
            ttl_secs * 1000
        } else {
            50
        },
{
    if use_internal_cache {
        (ttl_secs as u128) * 1000
    } else {
        50
    }
}

/// The address of a sentinel-managed server: the sentinels joined by
/// commas, then the cluster and database 0.
pub open spec fn sentinel_url_of(cluster_name: Seq<char>, sentinels: Seq<Seq<char>>) -> Seq<char> {
    "redis-sentinel://"@ + joined(sentinels, ","@) + "/"@ + cluster_name + "/0"@
}

/// Texts joined by `sep`.
pub open spec fn joined(v: Seq<Seq<char>>, sep: Seq<char>) -> Seq<char>
    decreases v.len(),
{
    if v.len() == 0 {
        Seq::empty()
    } else if v.len() == 1 {
        v[0]
    } else {
        joined(v.drop_last(), sep) + sep + v.last()
    }
}

/// Builds the address of a sentinel-managed server.
pub fn sentinel_url(cluster_name: &str, sentinels: &Vec<String>) -> (r: String)
    ensures
        r@ == sentinel_url_of(cluster_name@, sentinels@.map_values(|s: String| s@)),
{
    let ghost vs = sentinels@.map_values(|s: String| s@);
    let mut r = "redis-sentinel://".to_owned();
    let ghost start = r@;
    let mut i: usize = 0;
    while i < sentinels.len()
        invariant
            i <= sentinels@.len(),
            vs == sentinels@.map_values(|s: String| s@),
            r@ == start + joined(vs.subrange(0, i as int), ","@),
        decreases sentinels@.len() - i,
    {
        if i > 0 {
            push_str(&mut r, ",");
        }
        push_str(&mut r, sentinels[i].as_str());
        proof {
            let next = vs.subrange(0, i + 1);
            assert(next.drop_last() =~= vs.subrange(0, i as int));
            assert(next.last() == sentinels@[i as int]@);
            if i == 0 {
                assert(joined(next, ","@) == next[0]);
            }
            assert(r@ =~= start + joined(next, ","@));
        }
        i = i + 1;
    }
    assert(vs.subrange(0, sentinels@.len() as int) =~= vs);
    push_str(&mut r, "/");
    push_str(&mut r, cluster_name);
    push_str(&mut r, "/0");
    r
}

/// How the cache's server is reached: by its own address, or through
/// sentinels that watch a cluster.
pub enum RedisMode {
    Redis { redis_url: String },
    Sentinel { cluster_name: String, redis_sentinels: Vec<String> },
}

/// The address the cache connects to: the server's own, or the sentinel
/// address of the cluster.
pub fn connection_url(mode: &RedisMode) -> (r: String)
    ensures
        r@ == match mode {
            RedisMode::Redis { redis_url } => redis_url@,
            RedisMode::Sentinel { cluster_name, redis_sentinels } => sentinel_url_of(
                cluster_name@,
                redis_sentinels@.map_values(|s: String| s@),
            ),
        },
{
    match mode {
        RedisMode::Redis { redis_url } => redis_url.clone(),
        RedisMode::Sentinel { cluster_name, redis_sentinels } => sentinel_url(cluster_name.as_str(), redis_sentinels),
    }
}

/// The counters of the cache: calls, misses, and the total and largest
/// time calls took, in nanoseconds. Counters wrap around as the atomic
/// counters they mirror do.
pub struct CacheStats {
    pub calls: u64,
    pub misses: u64,
    pub latency_ns_total: u64,
    pub latency_ns_max: u64,
}

impl CacheStats {
    /// Nothing counted yet.
    pub fn new() -> (r: Self)
        ensures
            r.calls == 0 && r.misses == 0 && r.latency_ns_total == 0 && r.latency_ns_max == 0,
    {
        CacheStats { calls: 0, misses: 0, latency_ns_total: 0, latency_ns_max: 0 }
    }

    /// Counts a call.
    pub fn record_call(&mut self)
        ensures
            final(self).calls == (old(self).calls + 1) % 0x1_0000_0000_0000_0000,
            final(self).misses == old(self).misses,
            final(self).latency_ns_total == old(self).latency_ns_total,
            final(self).latency_ns_max == old(self).latency_ns_max,
    {
        self.calls = self.calls.wrapping_add(1);
    }

    /// Counts a miss.
    pub fn record_miss(&mut self)
        ensures
            final(self).misses == (old(self).misses + 1) % 0x1_0000_0000_0000_0000,
            final(self).calls == old(self).calls,
            final(self).latency_ns_total == old(self).latency_ns_total,
            final(self).latency_ns_max == old(self).latency_ns_max,
    {
        self.misses = self.misses.wrapping_add(1);
    }

    /// Counts the time a call took: it adds to the total, and becomes the
    /// largest where it exceeds it.
    pub fn record_latency(&mut self, elapsed_ns: u64)
        ensures
            final(self).latency_ns_total == (old(self).latency_ns_total + elapsed_ns) % 0x1_0000_0000_0000_0000,
            final(self).latency_ns_max == if elapsed_ns > old(self).latency_ns_max {
                elapsed_ns
            } else {
                old(self).latency_ns_max
            },
            final(self).calls == old(self).calls,
            final(self).misses == old(self).misses,
    {
        self.latency_ns_total = self.latency_ns_total.wrapping_add(elapsed_ns);
        if elapsed_ns > self.latency_ns_max {
            self.latency_ns_max = elapsed_ns;
        }
    }

    /// The number of calls counted.
    pub fn cache_calls(&self) -> (r: u64)
        ensures
            r == self.calls,
    {
        self.calls
    }

    /// The number of misses counted.
    pub fn cache_misses(&self) -> (r: u64)
        ensures
            r == self.misses,
    {
        self.misses
    }

    /// The average time of a call, 0 before the first.
    pub fn cache_latency_ns_average(&self) -> (r: u64)
        ensures
            r == if self.calls == 0 {
                0
            } else {
                self.latency_ns_total / self.calls
            },
    {
        if self.calls == 0 {
            0
        } else {
            self.latency_ns_total / self.calls
        }
    }
}

/// Where a cached lookup takes its value from.
#[derive(Clone, Copy, PartialEq, Eq, Debug)]
pub enum CacheLookup {
    /// The process's own cache holds it.
    Local,
    /// The shared store holds it.
    Shared,
    /// Neither holds it: it is computed.
    Compute,
}

/// Decides where a cached lookup takes its value from: the process's own
/// cache first, then the shared store, else the value is computed, once.
/// The call is counted, and a miss where the value is computed.
pub fn cache_lookup(stats: &mut CacheStats, in_local: bool, in_shared: bool) -> (r: CacheLookup)
    ensures
        r == if in_local {
            CacheLookup::Local
        } else if in_shared {
            CacheLookup::Shared
        } else {
            CacheLookup::Compute
        },
        final(stats).calls == (old(stats).calls + 1) % 0x1_0000_0000_0000_0000,
        final(stats).misses == if r == CacheLookup::Compute {
            ((old(stats).misses + 1) % 0x1_0000_0000_0000_0000) as u64
        } else {
            old(stats).misses
        },
        final(stats).latency_ns_total == old(stats).latency_ns_total,
        final(stats).latency_ns_max == old(stats).latency_ns_max,
{
    stats.record_call();
    if in_local {
        CacheLookup::Local
    } else if in_shared {
        CacheLookup::Shared
    } else {
        stats.record_miss();
        CacheLookup::Compute
    }
}

/// What a lookup that computed its value does with the outcome: the value
/// to store (in the shared store and in the process's own cache), and what
/// the caller gets.
pub struct ComputeOutcome {
    pub store: Option<Vec<u8>>,
    pub result: Result<Vec<u8>, String>,
}

/// A computed value is stored and handed out; a failed computation stores
/// nothing and is reported as "cache computation failed: " and the error
/// (`error_text`, the error as written for a person).
pub fn compute_outcome(computed: Result<Vec<u8>, String>) -> (r: ComputeOutcome)
    ensures
        match computed {
            Ok(v) => (r.store matches Some(x) && x@ == v@) && (r.result matches Ok(y) && y@ == v@),
            Err(e) => r.store is None && (r.result matches Err(m) && m@ == "cache computation failed: "@ + e@),
        },
{
    match computed {
        Ok(v) => {
            let stored = v.clone();
            ComputeOutcome { store: Some(stored), result: Ok(v) }
        },
        Err(e) => {
            let mut m = "cache computation failed: ".to_owned();
            push_str(&mut m, e.as_str());
            ComputeOutcome { store: None, result: Err(m) }
        },
    }
}

/// The lines of a text as `str::lines` cuts them: at each line feed, a
/// carriage return before it dropped; a last line without a line feed
/// kept as it is.
pub open spec fn lines_of(s: Seq<char>) -> Seq<Seq<char>>
    decreases s.len(),
{
    if s.len() == 0 {
        Seq::empty()
    } else {
        match first_index_of(s, '\n') {
            None => seq![s],
            Some(k) => {
                proof {
                    lemma_first_index_of(s, '\n');
                }
                let line = s.subrange(0, k as int);
                let line = if line.len() > 0 && line.last() == '\r' {
                    line.drop_last()
                } else {
                    line
                };
                seq![line] + lines_of(s.subrange(k + 1int, s.len() as int))
            },
        }
    }
}

/// The first line with the prefix `p`.
pub open spec fn first_line_with(lines: Seq<Seq<char>>, p: Seq<char>) -> Option<Seq<char>>
    decreases lines.len(),
{
    if lines.len() == 0 {
        None
    } else if has_prefix(lines[0], p) {
        Some(lines[0])
    } else {
        first_line_with(lines.drop_first(), p)
    }
}

/// The second field of a line whose fields are separated by colons.
pub open spec fn second_field(line: Seq<char>) -> Seq<char> {
    match first_index_of(line, ':') {
        None => "unknown"@,
        Some(k) => {
            let rest = line.subrange(k + 1int, line.len() as int);
            match first_index_of(rest, ':') {
                Some(j) => rest.subrange(0, j as int),
                None => rest,
            }
        },
    }
}

/// The server version that the server's `INFO` text reports on its
/// `redis_version:` line, `unknown` where it has none.
pub open spec fn spec_server_version(info: Seq<char>) -> Seq<char> {
    second_field(
        match first_line_with(lines_of(info), "redis_version:"@) {
            Some(l) => l,
            None => "redis_version:unknown"@,
        },
    )
}

/// Reads the server version from the server's `INFO` text.
pub fn server_version(info: &str) -> (r: String)
    ensures
        r@ == spec_server_version(info@),
{
    let cs = chars_of(info);
    let mut start: usize = 0;
    let mut found: Option<Vec<char>> = None;
    proof {
        reveal_strlit("redis_version:");
    }
    assert(cs@.subrange(0, cs@.len() as int) =~= cs@);
    while start < cs.len() && found.is_none()
        invariant
            cs@ == info@,
            start <= cs@.len(),
            "redis_version:"@.len() == 14,
            found is None ==> first_line_with(lines_of(info@), "redis_version:"@) == first_line_with(
                lines_of(cs@.subrange(start as int, cs@.len() as int)),
                "redis_version:"@,
            ),
            found matches Some(l) ==> first_line_with(lines_of(info@), "redis_version:"@) == Some(l@),
        decreases cs@.len() - start,
    {
        let ghost rest = cs@.subrange(start as int, cs@.len() as int);
        let end = match first_index_in(cs.as_slice(), start, '\n') {
            Some(e) => e,
            None => cs.len(),
        };
        let mut line = char_range(cs.as_slice(), start, end);
        let ghost raw = line@;
        if end < cs.len() && line.len() > 0 && line[line.len() - 1] == '\r' {
            line.pop();
        }
        let next = if end < cs.len() {
            end + 1
        } else {
            end
        };
        proof {
            let k = (end - start) as int;
            assert(raw =~= rest.subrange(0, k));
            let after = cs@.subrange(next as int, cs@.len() as int);
            if end < cs@.len() {
                assert(rest.subrange(k + 1, rest.len() as int) =~= after);
                let stripped = if raw.len() > 0 && raw.last() == '\r' {
                    raw.drop_last()
                } else {
                    raw
                };
                assert(line@ == stripped);
                assert(lines_of(rest) == seq![stripped] + lines_of(after));
                let ls = seq![stripped] + lines_of(after);
                assert(ls[0] == stripped);
                assert(ls.drop_first() =~= lines_of(after));
            } else {
                assert(raw =~= rest);
                assert(line@ == rest);
                assert(after =~= Seq::<char>::empty());
                assert(lines_of(rest) == seq![rest]);
                assert(seq![rest].drop_first() =~= Seq::<Seq<char>>::empty());
                assert(lines_of(after) =~= Seq::<Seq<char>>::empty());
            }
        }
        if starts_with(line.as_slice(), "redis_version:") {
            found = Some(line);
        }
        start = next;
    }
    let line: Vec<char> = match found {
        Some(l) => l,
        None => {
            assert(cs@.subrange(start as int, cs@.len() as int) =~= Seq::<char>::empty());
            assert(lines_of(Seq::<char>::empty()) =~= Seq::<Seq<char>>::empty());
            chars_of("redis_version:unknown")
        },
    };
    let ghost chosen = line@;
    assert(chosen == match first_line_with(lines_of(info@), "redis_version:"@) {
        Some(l) => l,
        None => "redis_version:unknown"@,
    });
    assert(line@.subrange(0, line@.len() as int) =~= line@);
    let f = match first_index_in(line.as_slice(), 0, ':') {
        None => chars_of("unknown"),
        Some(k) => {
            assert(k < line@.len());
            let rest = char_range(line.as_slice(), k + 1, line.len());
            assert(rest@.subrange(0, rest@.len() as int) =~= rest@);
            match first_index_in(rest.as_slice(), 0, ':') {
                Some(j) => char_range(rest.as_slice(), 0, j),
                None => rest,
            }
        },
    };
    assert(f@ == second_field(chosen));
    string_from_chars(f.as_slice())
}

} // verus!
