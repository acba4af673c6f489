use chnroutes::cache::{Cache, CACHE_DIR};
use chnroutes::error::{CacheError, OsError, OsErrorKind};
use std::time::Duration;

#[test]
fn test_cache() {
    let cache = Cache::new("test", Duration::from_millis(20).as_nanos());
    assert_eq!(cache.name(), "test");
    assert_eq!(cache.save_str("test", Ok(())).unwrap(), "test");
    assert!(cache.is_fresh(Some(Duration::from_millis(1).as_nanos())));
    assert!(!cache.is_fresh(Some(Duration::from_millis(25).as_nanos())));
}

#[test]
fn content_is_good_until_the_time_is_up() {
    let week = Duration::from_secs(7 * 24 * 60 * 60).as_nanos();
    let cache = Cache::new("apnic", week);
    assert_eq!(cache.expire_nanos(), 604_800_000_000_000);
    assert!(cache.is_fresh(Some(0)));
    assert!(cache.is_fresh(Some(week - 1)));
    assert!(!cache.is_fresh(Some(week)));
    assert!(!cache.is_fresh(Some(u128::MAX)));
    assert!(!cache.is_fresh(None));
    assert!(!Cache::new("never", 0).is_fresh(Some(0)));
    assert_eq!(CACHE_DIR, "chnroutes");
}

#[test]
fn a_file_that_cannot_be_written() {
    let cache = Cache::new("apnic", 1);
    let failure = OsError::new(OsErrorKind::PermissionDenied, Some(13), "Permission denied");
    assert_eq!(cache.save_str("data", Err(failure.clone())), Err(CacheError::IOError(failure)));
}
