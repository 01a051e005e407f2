use chrono::{Duration, TimeZone, Utc};
use std::collections::HashMap;
use tdl::release_cache::{entry_is_fresh, LookupAction, LookupEvent, ReleaseLookup, CACHE_TTL_SECONDS};
use tdl::source_port::{
    release_from_response, CachedSourcePortRelease, ReleaseAsset, ReleaseResponse, SourcePort,
    SourcePortError, SourcePortRelease,
};
use tdl::storage::{ObjectRepository, StorageError};

/// A store kept in memory, keyed like the directory-backed one.
struct MemoryStore {
    entries: HashMap<String, CachedSourcePortRelease>,
    deletes: usize,
}

impl MemoryStore {
    fn new() -> MemoryStore {
        MemoryStore { entries: HashMap::new(), deletes: 0 }
    }
}

fn copy_entry(e: &CachedSourcePortRelease) -> CachedSourcePortRelease {
    CachedSourcePortRelease { cached_date: e.cached_date, release: e.release.clone() }
}

/// Drives a lookup against `store` and `source`; answers the result and how many times the
/// source was asked.
fn run(
    port: SourcePort,
    now: i64,
    store: &mut MemoryStore,
    source: &dyn Fn(SourcePort) -> Result<SourcePortRelease, SourcePortError>,
) -> (Result<SourcePortRelease, SourcePortError>, usize) {
    let mut fetches = 0;
    let (mut lookup, mut action) = ReleaseLookup::start(port, now);
    loop {
        let event = match action {
            LookupAction::ReadCache(key) => LookupEvent::CacheRead(
                store.entries.get(&key).map(copy_entry).ok_or(StorageError::IoError("not found".to_string())),
            ),
            LookupAction::DeleteCache(key) => {
                store.deletes += 1;
                store.entries.remove(&key);
                LookupEvent::CacheDeleted(Ok(()))
            }
            LookupAction::FetchLatest(p) => {
                fetches += 1;
                LookupEvent::Fetched(source(p))
            }
            LookupAction::SaveCache(key, entry) => {
                let taken = store.entries.contains_key(&key);
                let repo = ObjectRepository::open("cache".to_string(), false).unwrap();
                match repo.check_save(&key, taken) {
                    Ok(_) => {
                        store.entries.insert(key, entry);
                        LookupEvent::CacheSaved(Ok(()))
                    }
                    Err(e) => LookupEvent::CacheSaved(Err(e)),
                }
            }
            LookupAction::Finish(result) => return (result, fetches),
            LookupAction::Ignored => panic!("the lookup ignored an answer"),
        };
        let (next, next_action) = lookup.step(event);
        lookup = next;
        action = next_action;
    }
}

fn asset(url: &str) -> ReleaseAsset {
    ReleaseAsset { name: url.rsplit('/').next().unwrap().to_string(), browser_download_url: url.to_string() }
}

/// Answers as the release authority's recorded responses do.
fn recorded_source(port: SourcePort) -> Result<SourcePortRelease, SourcePortError> {
    let response = match port {
        SourcePort::Chocolate => ReleaseResponse {
            tag_name: Some("chocolate-doom-3.0.0".to_string()),
            assets: vec![asset("https://github.com/chocolate-doom/chocolate-doom/releases/download/chocolate-doom-3.0.0/chocolate-doom-3.0.0-win32.zip")],
        },
        SourcePort::Crispy => ReleaseResponse {
            tag_name: Some("crispy-doom-5.10.3".to_string()),
            assets: vec![asset("https://github.com/fabiangreffrath/crispy-doom/releases/download/crispy-doom-5.10.3/crispy-doom-5.10.3-win32.zip")],
        },
        _ => ReleaseResponse { tag_name: None, assets: Vec::new() },
    };
    release_from_response(port, &response)
}

fn failing_source(_port: SourcePort) -> Result<SourcePortRelease, SourcePortError> {
    panic!("the release source must not be asked")
}

fn transport_failure(_port: SourcePort) -> Result<SourcePortRelease, SourcePortError> {
    Err(SourcePortError::TransportError("connection refused".to_string()))
}

fn fixed_now() -> i64 {
    Utc.with_ymd_and_hms(2021, 10, 1, 10, 10, 10).unwrap().timestamp()
}

fn crispy_entry(version: &str, cached_date: i64) -> CachedSourcePortRelease {
    CachedSourcePortRelease {
        cached_date,
        release: SourcePortRelease {
            source_port: SourcePort::Crispy,
            owner: "fabiangreffrath".to_string(),
            repository: "crispy-doom".to_string(),
            version: version.to_string(),
            assets: vec![(
                "windows".to_string(),
                "https://github.com/fabiangreffrath/crispy-doom/releases/download/crispy-doom-5.10.3/crispy-doom-5.10.3-win32.zip".to_string(),
            )],
        },
    }
}

fn rude_absence(cached_date: i64) -> CachedSourcePortRelease {
    CachedSourcePortRelease {
        cached_date,
        release: SourcePortRelease {
            source_port: SourcePort::Rude,
            owner: "drfrag666".to_string(),
            repository: "rude".to_string(),
            version: "no_latest_release".to_string(),
            assets: Vec::new(),
        },
    }
}

#[test]
fn should_get_correct_version() {
    let mut store = MemoryStore::new();
    let (result, _) = run(SourcePort::Chocolate, fixed_now(), &mut store, &recorded_source);
    assert!(result.is_ok());
    let source_port = result.unwrap();
    assert_eq!(source_port.version, "3.0.0");
}

#[test]
fn should_create_a_cache_entry_for_retrieved_version() {
    let mut store = MemoryStore::new();
    let (result, _) = run(SourcePort::Chocolate, fixed_now(), &mut store, &recorded_source);
    assert!(result.is_ok());
    assert!(store.entries.contains_key("chocolate-doom.chocolate-doom.latest"));
    assert_eq!(
        ObjectRepository::document_name("chocolate-doom.chocolate-doom.latest"),
        "chocolate-doom.chocolate-doom.latest.json"
    );
}

#[test]
fn should_create_a_cache_entry_with_correct_date_time_stamp() {
    let mut store = MemoryStore::new();
    let now = Utc::now().timestamp();
    let (result, _) = run(SourcePort::Chocolate, now, &mut store, &recorded_source);
    assert!(result.is_ok());
    let cache_entry = store.entries.get("chocolate-doom.chocolate-doom.latest").unwrap();
    assert!(Utc::now().timestamp() - cache_entry.cached_date <= 1);
    assert_eq!(cache_entry.release.version, "3.0.0");
}

#[test]
fn should_return_the_existing_cache_entry() {
    let now = fixed_now();
    let mut store = MemoryStore::new();
    store.entries.insert("fabiangreffrath.crispy-doom.latest".to_string(), crispy_entry("5.10.3", now));
    let (result, fetches) = run(SourcePort::Crispy, now, &mut store, &failing_source);
    assert!(result.is_ok());
    let source_port = result.unwrap();
    assert_eq!(source_port.version, "5.10.3");
    assert_eq!(fetches, 0);
}

#[test]
fn should_not_use_stale_cache_entry() {
    let now = fixed_now();
    let stale = (Utc.timestamp_opt(now, 0).unwrap() - Duration::hours(25)).timestamp();
    let mut store = MemoryStore::new();
    store.entries.insert("fabiangreffrath.crispy-doom.latest".to_string(), crispy_entry("5.10.2", stale));
    let (result, fetches) = run(SourcePort::Crispy, now, &mut store, &recorded_source);
    assert!(result.is_ok());
    let source_port = result.unwrap();
    assert_eq!(source_port.version, "5.10.3");
    assert_eq!(fetches, 1);
    assert_eq!(store.deletes, 1);
    let entry = store.entries.get("fabiangreffrath.crispy-doom.latest").unwrap();
    assert_eq!(entry.release.version, "5.10.3");
    assert_eq!(entry.cached_date, now);
}

#[test]
fn should_return_an_error_for_no_release_marked_latest() {
    let mut store = MemoryStore::new();
    let (result, _) = run(SourcePort::Rude, fixed_now(), &mut store, &recorded_source);
    assert!(result.is_err());
    assert!(matches!(result.unwrap_err(), SourcePortError::NoLatestRelease(SourcePort::Rude)));
}

#[test]
fn should_return_error_and_cache_source_port_with_no_latest_release() {
    let mut store = MemoryStore::new();
    let (result, _) = run(SourcePort::Rude, fixed_now(), &mut store, &recorded_source);
    assert!(result.is_err());
    assert!(matches!(result.unwrap_err(), SourcePortError::NoLatestRelease(SourcePort::Rude)));
    let entry = store.entries.get("drfrag666.rude.latest").unwrap();
    assert_eq!(entry.release.version, "no_latest_release");
    assert!(entry.release.assets.is_empty());
    assert_eq!(entry.release.owner, "drfrag666");
    assert_eq!(entry.release.repository, "RUDE");
}

#[test]
fn should_return_error_when_missing_release_is_cached() {
    let now = fixed_now();
    let mut store = MemoryStore::new();
    store.entries.insert("drfrag666.rude.latest".to_string(), rude_absence(now));
    let (result, fetches) = run(SourcePort::Rude, now, &mut store, &failing_source);
    assert!(result.is_err());
    assert!(matches!(result.unwrap_err(), SourcePortError::NoLatestRelease(SourcePort::Rude)));
    assert_eq!(fetches, 0);
}

#[test]
fn cold_cache_fetch_is_saved_with_its_instant() {
    let now = fixed_now();
    let mut store = MemoryStore::new();
    let (result, fetches) = run(SourcePort::Chocolate, now, &mut store, &recorded_source);
    assert_eq!(result.unwrap().version, "3.0.0");
    assert_eq!(fetches, 1);
    let entry = store.entries.get("chocolate-doom.chocolate-doom.latest").unwrap();
    assert_eq!(entry.cached_date, now);
    assert_eq!(entry.release.version, "3.0.0");
}

#[test]
fn hour_old_entry_is_served_without_the_source() {
    let now = fixed_now();
    let mut store = MemoryStore::new();
    store.entries.insert("fabiangreffrath.crispy-doom.latest".to_string(), crispy_entry("5.10.3", now - 3600));
    let (result, fetches) = run(SourcePort::Crispy, now, &mut store, &failing_source);
    assert_eq!(result.unwrap().version, "5.10.3");
    assert_eq!(fetches, 0);
}

#[test]
fn absence_marker_is_remembered_for_the_next_lookup() {
    let now = fixed_now();
    let mut store = MemoryStore::new();
    let (first, fetches) = run(SourcePort::Rude, now, &mut store, &recorded_source);
    assert!(matches!(first, Err(SourcePortError::NoLatestRelease(SourcePort::Rude))));
    assert_eq!(fetches, 1);
    let (second, fetches) = run(SourcePort::Rude, now + 3600, &mut store, &failing_source);
    assert!(matches!(second, Err(SourcePortError::NoLatestRelease(SourcePort::Rude))));
    assert_eq!(fetches, 0);
}

#[test]
fn transport_failure_is_returned_and_not_cached() {
    let mut store = MemoryStore::new();
    let (result, fetches) = run(SourcePort::Crispy, fixed_now(), &mut store, &transport_failure);
    match result {
        Err(SourcePortError::TransportError(detail)) => assert_eq!(detail, "connection refused"),
        other => panic!("unexpected result {:?}", other),
    }
    assert_eq!(fetches, 1);
    assert!(store.entries.is_empty());
}

#[test]
fn stale_entry_is_gone_when_the_refresh_fails() {
    let now = fixed_now();
    let mut store = MemoryStore::new();
    store.entries.insert("fabiangreffrath.crispy-doom.latest".to_string(), crispy_entry("5.10.2", now - 25 * 3600));
    let (result, _) = run(SourcePort::Crispy, now, &mut store, &transport_failure);
    assert!(result.is_err());
    assert!(store.entries.is_empty());
}

#[test]
fn failed_save_ends_the_lookup_with_the_store_error() {
    let (lookup, _) = ReleaseLookup::start(SourcePort::Crispy, fixed_now());
    let (lookup, action) = lookup.step(LookupEvent::CacheRead(Err(StorageError::IoError("missing".to_string()))));
    assert!(matches!(action, LookupAction::FetchLatest(SourcePort::Crispy)));
    let (lookup, action) = lookup.step(LookupEvent::Fetched(recorded_source(SourcePort::Crispy)));
    assert!(matches!(action, LookupAction::SaveCache(_, _)));
    let (lookup, action) = lookup.step(LookupEvent::CacheSaved(Err(StorageError::IoError("disk full".to_string()))));
    match action {
        LookupAction::Finish(Err(SourcePortError::StorageError(StorageError::IoError(m)))) => assert_eq!(m, "disk full"),
        other => panic!("unexpected action {:?}", other),
    }
    assert!(lookup.is_done());
    let (_, action) = lookup.step(LookupEvent::CacheDeleted(Ok(())));
    assert!(matches!(action, LookupAction::Ignored));
}

#[test]
fn freshness_ends_exactly_at_the_time_to_live() {
    let now = fixed_now();
    assert_eq!(CACHE_TTL_SECONDS, 24 * 3600);
    assert!(entry_is_fresh(now - CACHE_TTL_SECONDS + 1, now));
    assert!(!entry_is_fresh(now - CACHE_TTL_SECONDS, now));
    assert!(entry_is_fresh(now + 3600, now));
    assert!(entry_is_fresh(i64::MAX, i64::MIN));
    assert!(!entry_is_fresh(i64::MIN, i64::MAX));
}
