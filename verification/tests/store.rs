use schedule_mirror::store::{probe, CacheState, DEFAULT_TTL};

#[test]
fn default_ttl_is_thirty_minutes() {
    assert_eq!(DEFAULT_TTL, 30 * 60);
}

#[test]
fn nothing_stored_is_absent() {
    assert_eq!(probe(None, 0, DEFAULT_TTL), CacheState::Absent);
    assert_eq!(probe(None, i64::MAX, 0), CacheState::Absent);
}

#[test]
fn younger_than_ttl_is_fresh() {
    assert_eq!(probe(Some(1000), 1000, 1800), CacheState::Fresh);
    assert_eq!(probe(Some(1000), 1001, 1800), CacheState::Fresh);
    assert_eq!(probe(Some(1000), 2799, 1800), CacheState::Fresh);
}

#[test]
fn at_ttl_and_older_is_stale() {
    assert_eq!(probe(Some(1000), 2800, 1800), CacheState::Stale);
    assert_eq!(probe(Some(1000), 2860, 1800), CacheState::Stale);
    assert_eq!(probe(Some(1000), 1_000_000, 1800), CacheState::Stale);
}

#[test]
fn a_write_in_the_future_is_fresh() {
    assert_eq!(probe(Some(5000), 1000, 1800), CacheState::Fresh);
}

#[test]
fn ttl_of_nothing_makes_everything_stale() {
    assert_eq!(probe(Some(1000), 1000, 0), CacheState::Stale);
    assert_eq!(probe(Some(1000), 999, 0), CacheState::Fresh);
}

#[test]
fn far_moments_do_not_overflow() {
    assert_eq!(probe(Some(i64::MIN), i64::MAX, u64::MAX), CacheState::Stale);
    assert_eq!(probe(Some(i64::MIN + 1), i64::MAX, u64::MAX), CacheState::Fresh);
    assert_eq!(probe(Some(i64::MIN + 1), i64::MAX, u64::MAX - 1), CacheState::Stale);
    assert_eq!(probe(Some(i64::MIN), i64::MAX, 1800), CacheState::Stale);
    assert_eq!(probe(Some(i64::MAX), i64::MIN, 0), CacheState::Fresh);
    assert_eq!(probe(Some(0), i64::MAX, u64::MAX), CacheState::Fresh);
}
