use calagopus_panel::cache::{
    cache_lookup, compute_outcome, connection_url, local_ttl_ms, lock_key, lock_ttl, lock_wait, ratelimit, ratelimit_key, sentinel_url,
    server_version, CacheLookup, CacheStats,
    LockWait, RedisMode,
};

#[test]
fn ratelimit_keys() {
    assert_eq!(ratelimit_key("login", "127.0.0.1"), "ratelimit::login::127.0.0.1");
    assert_eq!(lock_key("extensions::rebuild"), "lock::extensions::rebuild");
}

#[test]
fn ratelimit_counts_and_refuses() {
    let now = 1_000_000;
    // No stored count: a fresh window starts now.
    let first = ratelimit(now, 0, 0, 3, 60);
    assert_eq!(first.used, 1);
    assert_eq!(first.expire_at, 1_000_060);
    assert_eq!(first.refusal, None);
    // The stored expiry lies ahead: it is kept.
    let second = ratelimit(now + 10, now + 60, first.used, 3, 60);
    assert_eq!(second.used, 2);
    assert_eq!(second.expire_at, 1_000_060);
    assert_eq!(second.refusal, None);
    // The count reaches the limit: refused, with the time left.
    let third = ratelimit(now + 20, now + 60, second.used, 3, 60);
    assert_eq!(third.used, 3);
    let refusal = third.refusal.unwrap();
    assert_eq!(refusal.status, 429);
    assert_eq!(refusal.message, "you are ratelimited, retry in 40s");
}

#[test]
fn ratelimit_window_admits_limit_less_one() {
    // Of ten requests in one window under a limit of 4, three pass.
    let mut used = 0;
    let mut passed = 0;
    for _ in 0..10 {
        let d = ratelimit(100, 200, used, 4, 60);
        used = d.used;
        if d.refusal.is_none() {
            passed += 1;
        }
    }
    assert_eq!(passed, 3);
    assert_eq!(used, 10);
    // A limit of one refuses every request.
    assert!(ratelimit(100, 0, 0, 1, 60).refusal.is_some());
}

#[test]
fn expiry_near_now_opens_a_new_window() {
    // Two seconds ahead is not enough: a new window starts.
    let d = ratelimit(500, 502, 0, 10, 30);
    assert_eq!(d.expire_at, 530);
}

#[test]
fn locks() {
    assert_eq!(lock_ttl(None), 30);
    assert_eq!(lock_ttl(Some(5)), 5);
    assert_eq!(lock_wait(None), LockWait::Sleep(50));
    assert_eq!(lock_wait(Some(0)), LockWait::GiveUp);
    assert_eq!(lock_wait(Some(20)), LockWait::Sleep(20));
    assert_eq!(lock_wait(Some(500)), LockWait::Sleep(50));
}

#[test]
fn local_lifetimes() {
    assert_eq!(local_ttl_ms(true, 120), 120_000);
    assert_eq!(local_ttl_ms(false, 120), 50);
}

#[test]
fn sentinel_addresses() {
    let sentinels = vec!["10.0.0.1:26379".to_string(), "10.0.0.2:26379".to_string()];
    assert_eq!(sentinel_url("main", &sentinels), "redis-sentinel://10.0.0.1:26379,10.0.0.2:26379/main/0");
    assert_eq!(sentinel_url("main", &vec![]), "redis-sentinel:///main/0");
}

#[test]
fn server_versions() {
    let info = "# Server\r\nredis_version:7.2.4\r\nredis_git_sha1:00000000\r\n";
    assert_eq!(server_version(info), "7.2.4");
    assert_eq!(server_version("# Server\nos:Linux\n"), "unknown");
    assert_eq!(server_version(""), "unknown");
}

#[test]
fn statistics() {
    let mut s = CacheStats::new();
    assert_eq!(s.cache_latency_ns_average(), 0);
    s.record_call();
    s.record_call();
    s.record_miss();
    s.record_latency(100);
    s.record_latency(300);
    assert_eq!(s.cache_calls(), 2);
    assert_eq!(s.cache_misses(), 1);
    assert_eq!(s.latency_ns_total, 400);
    assert_eq!(s.latency_ns_max, 300);
    assert_eq!(s.cache_latency_ns_average(), 200);
    s.calls = u64::MAX;
    s.record_call();
    assert_eq!(s.calls, 0);
}

#[test]
fn connection_urls() {
    let direct = RedisMode::Redis { redis_url: "redis://127.0.0.1:6379".to_string() };
    assert_eq!(connection_url(&direct), "redis://127.0.0.1:6379");
    let sentinel = RedisMode::Sentinel {
        cluster_name: "panel".to_string(),
        redis_sentinels: vec!["a:26379".to_string(), "b:26379".to_string()],
    };
    assert_eq!(connection_url(&sentinel), "redis-sentinel://a:26379,b:26379/panel/0");
}

#[test]
fn cached_lookup_takes_local_then_shared_then_computes() {
    let mut s = CacheStats::new();
    assert_eq!(cache_lookup(&mut s, true, true), CacheLookup::Local);
    assert_eq!((s.cache_calls(), s.cache_misses()), (1, 0));
    assert_eq!(cache_lookup(&mut s, false, true), CacheLookup::Shared);
    assert_eq!((s.cache_calls(), s.cache_misses()), (2, 0));
    assert_eq!(cache_lookup(&mut s, false, false), CacheLookup::Compute);
    assert_eq!((s.cache_calls(), s.cache_misses()), (3, 1));
}

#[test]
fn failed_computation_stores_nothing() {
    let ok = compute_outcome(Ok(vec![1, 2, 3]));
    assert_eq!(ok.store, Some(vec![1, 2, 3]));
    assert_eq!(ok.result, Ok(vec![1, 2, 3]));
    let failed = compute_outcome(Err("database offline".to_string()));
    assert_eq!(failed.store, None);
    assert_eq!(failed.result, Err("cache computation failed: database offline".to_string()));
}
