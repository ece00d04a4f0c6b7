use playlist_sync::Credential;
use playlist_sync::CredentialCache;
use playlist_sync::RefreshEvent;
use playlist_sync::SchedulerPhase;
use playlist_sync::scheduler_step;
use playlist_sync::scheduler::REFRESH_INTERVAL_SECONDS;

#[test]
fn cache_starts_with_its_initial_value() {
    let cache = CredentialCache::new(Credential::initial());
    let c = cache.read();
    assert_eq!(c.token, "");
    assert_eq!(c.expires_in_seconds, 0);
}

#[test]
fn read_returns_the_last_written_value() {
    let mut cache = CredentialCache::new(Credential::initial());
    cache.write(Credential::new("tok-1".to_string(), 3600));
    assert_eq!(cache.read().token, "tok-1");
    cache.write(Credential::new("tok-2".to_string(), 1200));
    let c = cache.read();
    assert_eq!(c.token, "tok-2");
    assert_eq!(c.expires_in_seconds, 1200);
}

#[test]
fn refresh_interval_is_half_an_hour() {
    assert_eq!(REFRESH_INTERVAL_SECONDS, 1800);
}

#[test]
fn elapsed_interval_starts_a_refresh_without_touching_the_cache() {
    let mut cache = CredentialCache::new(Credential::new("tok-1".to_string(), 3600));
    let next = scheduler_step(SchedulerPhase::Idle, RefreshEvent::IntervalElapsed, &mut cache);
    assert_eq!(next, SchedulerPhase::Refreshing);
    assert_eq!(cache.read().token, "tok-1");
}

#[test]
fn successful_exchange_swaps_in_the_fresh_credential() {
    let mut cache = CredentialCache::new(Credential::new("tok-1".to_string(), 3600));
    let fresh = Credential::new("tok-2".to_string(), 3600);
    let next = scheduler_step(
        SchedulerPhase::Refreshing,
        RefreshEvent::ExchangeSucceeded { credential: fresh },
        &mut cache,
    );
    assert_eq!(next, SchedulerPhase::Idle);
    assert_eq!(cache.read().token, "tok-2");
}

#[test]
fn failed_exchange_leaves_the_cache_unchanged() {
    let mut cache = CredentialCache::new(Credential::new("tok-1".to_string(), 3600));
    let before = cache.read();
    let next = scheduler_step(SchedulerPhase::Refreshing, RefreshEvent::ExchangeFailed, &mut cache);
    assert_eq!(next, SchedulerPhase::Idle);
    let after = cache.read();
    assert_eq!(after.token, before.token);
    assert_eq!(after.expires_in_seconds, before.expires_in_seconds);
}

#[test]
fn mismatched_event_changes_nothing() {
    let mut cache = CredentialCache::new(Credential::new("tok-1".to_string(), 3600));
    let next = scheduler_step(SchedulerPhase::Idle, RefreshEvent::ExchangeFailed, &mut cache);
    assert_eq!(next, SchedulerPhase::Idle);
    assert_eq!(cache.read().token, "tok-1");
}
