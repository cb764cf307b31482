//! The cache of discovered sessions.

use voice_sessions::session_cache::{
    ensure_background_scan, finish_scan, invalidate_cache, scan_all, scan_all_with_limit,
    scan_cached, ScanToken, SessionCache,
};
use voice_sessions::session_scanner::{CLIAgent, DiscoveredCLIAgentSession, Timestamp};

fn session(id: &str) -> DiscoveredCLIAgentSession {
    DiscoveredCLIAgentSession {
        id: format!("agent:{id}"),
        agent_type: CLIAgent::Claude,
        title: "T".to_string(),
        session_id: id.to_string(),
        working_directory: None,
        last_updated: Timestamp { seconds: 0, nanos: 0 },
    }
}

#[test]
fn a_scan_is_started_once() {
    let mut cache = SessionCache::new();
    let first = scan_cached(&mut cache);
    assert!(first.start_scan.is_some());
    assert!(first.sessions.is_empty());
    assert!(scan_cached(&mut cache).start_scan.is_none());
    assert!(ensure_background_scan(&mut cache).is_none());
}

#[test]
fn a_finished_scan_is_served() {
    let mut cache = SessionCache::new();
    let token = ensure_background_scan(&mut cache).unwrap();
    finish_scan(&mut cache, token, vec![session("a"), session("b")]);
    let served = scan_cached(&mut cache);
    assert!(served.start_scan.is_none());
    assert_eq!(served.sessions.len(), 2);
    assert_eq!(served.sessions[1].id, "agent:b");
    assert_eq!(scan_all(&mut cache).sessions.len(), 2);
    assert_eq!(scan_all_with_limit(&mut cache, 1).sessions.len(), 2);
}

#[test]
fn a_scan_that_found_nothing_is_not_repeated() {
    let mut cache = SessionCache::new();
    let token = ensure_background_scan(&mut cache).unwrap();
    finish_scan(&mut cache, token, Vec::new());
    assert!(scan_cached(&mut cache).start_scan.is_none());
}

#[test]
fn an_invalidated_cache_is_scanned_again() {
    let mut cache = SessionCache::new();
    let token = ensure_background_scan(&mut cache).unwrap();
    finish_scan(&mut cache, token, vec![session("a")]);
    invalidate_cache(&mut cache);
    let served = scan_cached(&mut cache);
    assert!(served.start_scan.is_some());
    assert!(served.sessions.is_empty());
    invalidate_cache(&mut cache);
    assert!(scan_cached(&mut cache).start_scan.is_some());
}

#[test]
fn a_scan_from_before_the_invalidation_does_not_count() {
    let mut cache = SessionCache::new();
    let stale = ensure_background_scan(&mut cache).unwrap();
    invalidate_cache(&mut cache);
    finish_scan(&mut cache, stale, vec![session("old")]);
    let served = scan_cached(&mut cache);
    assert!(served.sessions.is_empty());
    let fresh = served.start_scan.unwrap();
    assert_ne!(fresh, stale);
    finish_scan(&mut cache, stale, vec![session("old")]);
    assert!(scan_cached(&mut cache).start_scan.is_none());
    assert!(scan_cached(&mut cache).sessions.is_empty());
    finish_scan(&mut cache, fresh, vec![session("new")]);
    assert_eq!(scan_cached(&mut cache).sessions[0].id, "agent:new");
}

#[test]
fn generations_start_again_behind_the_last() {
    let mut cache = SessionCache::new();
    cache.generation = u64::MAX;
    let stale = ensure_background_scan(&mut cache).unwrap();
    assert_eq!(stale, ScanToken { generation: u64::MAX });
    invalidate_cache(&mut cache);
    assert_eq!(ensure_background_scan(&mut cache), Some(ScanToken { generation: 0 }));
    finish_scan(&mut cache, stale, vec![session("old")]);
    assert!(scan_cached(&mut cache).sessions.is_empty());
}
