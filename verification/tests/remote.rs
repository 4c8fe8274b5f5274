use nix_store_mesh::front::{self, Side};
use nix_store_mesh::remote::{
    awaited, check_reachable, check_verdict, refresh_task, try_forward, valid_host, Checking,
    ForwardStep, Reachability, ReachabilityCache, RefreshStep, SendOutcome, Turn,
    REACHABLE_CACHE_TTL_SECS, REACHABLE_TIMEOUT_MS,
};
use nix_store_mesh::reply::Status;
use nix_store_mesh::store::parse_nar_with_hash;

const SECOND: u128 = 1_000_000_000;

fn checking(step: RefreshStep) -> (Option<String>, Checking) {
    match step {
        RefreshStep::Check(url, checking) => (url, checking),
        RefreshStep::Wait => panic!("the refresh waits"),
    }
}

fn known(cache: &mut ReachabilityCache, host: &str, verdict: bool, now: u128) {
    assert_eq!(cache.begin_refresh(host, now, 0), Turn::Check);
    cache.finish_refresh(host, verdict, now);
}

#[test]
fn hosts() {
    assert!(valid_host("cache.local:3000"));
    assert!(!valid_host(""));
    assert!(!valid_host("a/b"));
    assert!(!valid_host("a\\b"));
}

#[test]
fn addresses_of_checks() {
    assert_eq!(check_reachable("h:1"), Some("http://h:1/nix-cache-info".to_string()));
    assert_eq!(check_reachable(""), None);
    assert_eq!(check_reachable("a/b"), None);
    assert_eq!(check_reachable("a\\b"), None);
}

#[test]
fn verdicts_of_checks() {
    assert!(check_verdict(Some(200)));
    assert!(check_verdict(Some(299)));
    assert!(!check_verdict(Some(199)));
    assert!(!check_verdict(Some(300)));
    assert!(!check_verdict(Some(404)));
    assert!(!check_verdict(None));
}

#[test]
fn limits() {
    assert_eq!(REACHABLE_CACHE_TTL_SECS, 300);
    assert_eq!(REACHABLE_TIMEOUT_MS, 500);
}

#[test]
fn unknown_and_refused_hosts() {
    let cache = ReachabilityCache::new();
    assert_eq!(cache.reachable("h", 0), Reachability::Unknown);
    assert_eq!(cache.reachable("", 0), Reachability::Refused);
    assert_eq!(cache.reachable("a\\b", 0), Reachability::Refused);
}

#[test]
fn verdict_is_trusted_for_its_time() {
    let mut cache = ReachabilityCache::new();
    known(&mut cache, "h", true, 7 * SECOND);
    let good = Reachability::Known { reachable: true, refresh: false };
    assert_eq!(cache.reachable("h", 7 * SECOND), good);
    assert_eq!(cache.reachable("h", 0), good);
    assert_eq!(cache.reachable("h", 307 * SECOND - 1), good);
    assert_eq!(cache.reachable("h", 307 * SECOND), Reachability::Unknown);
    assert_eq!(cache.reachable("g", 7 * SECOND), Reachability::Unknown);
}

#[test]
fn late_times_do_not_overflow() {
    let mut cache = ReachabilityCache::new();
    known(&mut cache, "h", true, u128::MAX);
    let good = Reachability::Known { reachable: true, refresh: false };
    assert_eq!(cache.reachable("h", u128::MAX), good);
}

#[test]
fn bad_news_is_checked_again() {
    let mut cache = ReachabilityCache::new();
    known(&mut cache, "h", false, 0);
    let bad = Reachability::Known { reachable: false, refresh: true };
    assert_eq!(cache.reachable("h", 1), bad);
    // So is a host whose first check is under way.
    assert_eq!(cache.begin_refresh("g", 5, 1), Turn::Check);
    assert_eq!(cache.reachable("g", 5), bad);
}

#[test]
fn one_check_at_a_time() {
    let mut cache = ReachabilityCache::new();
    assert_eq!(cache.begin_refresh("h", 0, 1), Turn::Check);
    assert_eq!(cache.begin_refresh("h", 0, 2), Turn::Wait);
    assert_eq!(cache.begin_refresh("g", 0, 3), Turn::Check);
    assert_eq!(cache.begin_refresh("h", 0, 4), Turn::Wait);
    assert_eq!(cache.waiters("h"), vec![2, 4]);
    assert_eq!(cache.finish_refresh("h", true, 9), vec![2, 4]);
    assert_eq!(cache.waiters("h"), Vec::<u64>::new());
    assert_eq!(cache.begin_refresh("h", 9, 5), Turn::Check);
    assert_eq!(cache.finish_refresh("h", true, 9), Vec::<u64>::new());
    assert_eq!(cache.finish_refresh("new", true, 9), Vec::<u64>::new());
}

#[test]
fn check_keeps_what_was_found_before() {
    let mut cache = ReachabilityCache::new();
    known(&mut cache, "h", true, 0);
    assert_eq!(cache.begin_refresh("h", 50, 1), Turn::Check);
    let good = Reachability::Known { reachable: true, refresh: false };
    assert_eq!(cache.reachable("h", 60), good);
}

#[test]
fn forgotten_hosts() {
    let mut cache = ReachabilityCache::new();
    known(&mut cache, "h", true, 0);
    cache.begin_refresh("h", 0, 1);
    cache.begin_refresh("h", 0, 2);
    assert_eq!(cache.invalidate_cache("h"), vec![2]);
    assert_eq!(cache.reachable("h", 0), Reachability::Unknown);
    assert_eq!(cache.invalidate_cache("h"), Vec::<u64>::new());
    // The check that was under way still reports.
    assert_eq!(cache.finish_refresh("h", true, 3), Vec::<u64>::new());
    let good = Reachability::Known { reachable: true, refresh: false };
    assert_eq!(cache.reachable("h", 3), good);
}

#[test]
fn refreshes() {
    let mut cache = ReachabilityCache::new();
    let (url, check) = checking(refresh_task("h").begin(&mut cache, 0, 1));
    assert_eq!(url, Some("http://h/nix-cache-info".to_string()));
    assert!(matches!(refresh_task("h").begin(&mut cache, 0, 2), RefreshStep::Wait));
    let answers = check.finish(&mut cache, Some(204), 4);
    assert!(answers.reachable);
    assert_eq!(answers.tickets, vec![2]);
    let (_, check) = checking(refresh_task("h").begin(&mut cache, 5, 3));
    let answers = check.finish(&mut cache, None, 6);
    assert!(!answers.reachable);
    let bad = Reachability::Known { reachable: false, refresh: true };
    assert_eq!(cache.reachable("h", 6), bad);
    let (url, _) = checking(refresh_task("a/b").begin(&mut cache, 0, 4));
    assert_eq!(url, None);
}

#[test]
fn awaited_answers() {
    assert!(awaited(Some(true)));
    assert!(!awaited(Some(false)));
    assert!(!awaited(None));
}

#[test]
fn paths_that_are_not_forwarded() {
    assert!(try_forward("/").is_none());
    assert!(try_forward("/host").is_none());
    assert!(try_forward("*").is_none());
    assert_eq!(try_forward("//x").unwrap().host(), "");
    assert_eq!(try_forward("/h:1/x/y").unwrap().host(), "h:1");
}

#[test]
fn reachable_host_is_asked_at_once() {
    let mut cache = ReachabilityCache::new();
    known(&mut cache, "h:1", true, 0);
    let (step, background) = try_forward("/h:1/nar/a-b.nar").unwrap().reachable(&cache, 1);
    assert!(background.is_none());
    match step {
        ForwardStep::Send(url, _) => assert_eq!(url, "http://h:1/nar/a-b.nar"),
        _ => panic!("not sent"),
    }
}

#[test]
fn unreachable_host_is_given_up_and_checked_again() {
    let mut cache = ReachabilityCache::new();
    known(&mut cache, "h", false, 0);
    let (step, background) = try_forward("/h/x").unwrap().reachable(&cache, 1);
    assert!(matches!(step, ForwardStep::NotForwarded));
    let (url, _) = checking(background.unwrap().begin(&mut cache, 1, 0));
    assert_eq!(url, Some("http://h/nix-cache-info".to_string()));
}

#[test]
fn refused_host_is_given_up() {
    let cache = ReachabilityCache::new();
    for path in ["//x", "/a\\b/x"] {
        let (step, background) = try_forward(path).unwrap().reachable(&cache, 1);
        assert!(matches!(step, ForwardStep::NotForwarded));
        assert!(background.is_none());
    }
}

#[test]
fn unknown_host_is_refreshed_first() {
    let mut cache = ReachabilityCache::new();
    for reachable in [true, false] {
        let (step, background) = try_forward("/h/x/y").unwrap().reachable(&cache, 1);
        assert!(background.is_none());
        match step {
            ForwardStep::Refresh(refreshing) => {
                let (url, _) = checking(refreshing.task().begin(&mut cache, 1, 0));
                assert_eq!(url, Some("http://h/nix-cache-info".to_string()));
                cache.invalidate_cache("h");
                match refreshing.resume(reachable) {
                    ForwardStep::Send(url, _) => {
                        assert!(reachable);
                        assert_eq!(url, "http://h/x/y");
                    }
                    ForwardStep::NotForwarded => assert!(!reachable),
                    ForwardStep::Refresh(_) => panic!("refreshed again"),
                }
            }
            _ => panic!("not refreshed"),
        }
    }
}

/// The end of a request to a host that is being checked and has one waiter.
fn end_of(outcome: SendOutcome<u16>) -> (Option<u16>, Vec<u64>, ReachabilityCache) {
    let mut cache = ReachabilityCache::new();
    known(&mut cache, "h", true, 0);
    cache.begin_refresh("h", 0, 1);
    cache.begin_refresh("h", 0, 2);
    let (step, _) = try_forward("/h/x").unwrap().reachable(&cache, 1);
    match step {
        ForwardStep::Send(_, sending) => {
            let (relayed, answers) = sending.finish(&mut cache, outcome);
            assert!(!answers.reachable);
            (relayed, answers.tickets, cache)
        }
        _ => panic!("not sent"),
    }
}

#[test]
fn reply_is_relayed() {
    let (relayed, tickets, cache) = end_of(SendOutcome::Replied(404));
    assert_eq!(relayed, Some(404));
    assert!(tickets.is_empty());
    assert_eq!(cache.waiters("h"), vec![2]);
}

#[test]
fn failed_connection_forgets_the_host() {
    let (relayed, tickets, cache) = end_of(SendOutcome::ConnectFailed);
    assert_eq!(relayed, None);
    assert_eq!(tickets, vec![2]);
    assert_eq!(cache.reachable("h", 1), Reachability::Unknown);
}

#[test]
fn other_failure_keeps_the_host() {
    let (relayed, tickets, cache) = end_of(SendOutcome::Failed);
    assert_eq!(relayed, None);
    assert!(tickets.is_empty());
    let good = Reachability::Known { reachable: true, refresh: false };
    assert_eq!(cache.reachable("h", 1), good);
}

#[test]
fn sides() {
    assert_eq!(front::dispatch(Some(true)), Side::Proxy);
    assert_eq!(front::dispatch(Some(false)), Side::Store);
    assert_eq!(front::dispatch(None), Side::Store);
}

#[test]
fn answers_of_the_proxy() {
    assert_eq!(front::root(), (Status::Success, "Hello, World!"));
    assert_eq!(front::handler(Some(7)), Ok(7));
    assert_eq!(front::handler(None::<u8>), Err(Status::NotFound));
}

#[test]
fn hosts_are_independent() {
    let mut cache = ReachabilityCache::new();
    known(&mut cache, "g", true, 0);
    cache.begin_refresh("g", 0, 1);
    cache.begin_refresh("g", 0, 2);
    known(&mut cache, "h", false, 0);
    cache.invalidate_cache("h");
    assert_eq!(cache.waiters("g"), vec![2]);
    let good = Reachability::Known { reachable: true, refresh: false };
    assert_eq!(cache.reachable("g", 0), good);
}

#[test]
fn advertised_archive_is_had_through_the_mesh() {
    let mut cache = ReachabilityCache::new();
    known(&mut cache, "h:1", true, 0);
    let (step, _) = try_forward("/h:1/nar/bbb-1b2c.nar").unwrap().reachable(&cache, 0);
    match step {
        ForwardStep::Send(url, _) => {
            let path = url.strip_prefix("http://h:1").unwrap();
            assert_eq!(
                parse_nar_with_hash(path),
                Some(("bbb".to_string(), "1b2c".to_string()))
            );
        }
        _ => panic!("not sent"),
    }
}
