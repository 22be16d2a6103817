use api_key_rotator::config::Limits;
use api_key_rotator::models::{ApiKey, ApiKeyStatus, ApiKeyUsage, RecordUpdate};
use api_key_rotator::timestamp::Timestamp;

fn record(id: &str) -> ApiKey {
    ApiKey::new_at(id.to_string(), Timestamp::new(1_000, 0))
}

#[test]
fn usage_starts_at_zero() {
    let usage = ApiKeyUsage::default();
    assert_eq!(usage.requests_this_minute, 0);
    assert_eq!(usage.requests_this_day, 0);
    assert_eq!(usage, ApiKeyUsage { requests_this_minute: 0, requests_this_day: 0 });
}

#[test]
fn limits_keep_their_values() {
    let limits = Limits::new(1, 2, 3, 4);
    assert_eq!(
        limits,
        Limits { rpm_limit: 1, rpd_limit: 2, tpm_limit: 3, key_cooldown_seconds: 4 }
    );
}

#[test]
fn a_key_made_at_an_instant_is_fresh() {
    let now = Timestamp::new(1_700_000_000, 42);
    let key = ApiKey::new_at("k1".to_string(), now);
    assert_eq!(key.key, "k1");
    assert_eq!(key.status, ApiKeyStatus::Active);
    assert_eq!(key.usage, ApiKeyUsage::default());
    assert_eq!(key.last_used, now);
    assert_eq!(key.created_at, now);
    assert_eq!(key.deactivated_at, None);
}

#[test]
fn a_key_made_now_is_fresh() {
    let key = ApiKey::new("k1".to_string());
    assert_eq!(key.key, "k1");
    assert_eq!(key.status, ApiKeyStatus::Active);
    assert_eq!(key.usage, ApiKeyUsage::default());
    assert_eq!(key.last_used, key.created_at);
    assert_eq!(key.deactivated_at, None);
    assert!(key.created_at.secs > 1_600_000_000);
}

#[test]
fn a_copy_is_equal_in_every_field() {
    let mut key = record("k1");
    key.record_use(Timestamp::new(2_000, 7));
    key.deactivate(Timestamp::new(3_000, 9));
    let copy = key.clone();
    assert_eq!(copy.key, key.key);
    assert_eq!(copy.status, key.status);
    assert_eq!(copy.usage, key.usage);
    assert_eq!(copy.last_used, key.last_used);
    assert_eq!(copy.created_at, key.created_at);
    assert_eq!(copy.deactivated_at, key.deactivated_at);
}

#[test]
fn a_use_raises_both_counters_and_sets_the_last_use() {
    let mut key = record("k1");
    key.record_use(Timestamp::new(2_000, 5));
    assert_eq!(key.usage, ApiKeyUsage { requests_this_minute: 1, requests_this_day: 1 });
    assert_eq!(key.last_used, Timestamp::new(2_000, 5));
    assert_eq!(key.created_at, Timestamp::new(1_000, 0));
    key.record_use(Timestamp::new(2_001, 0));
    assert_eq!(key.usage, ApiKeyUsage { requests_this_minute: 2, requests_this_day: 2 });
    assert_eq!(key.last_used, Timestamp::new(2_001, 0));
    assert_eq!(key.key, "k1");
}

#[test]
fn a_key_is_eligible_while_active_and_under_both_limits() {
    let limits = Limits::new(2, 3, 100, 60);
    let mut key = record("k1");
    assert!(key.is_eligible(&limits));
    key.usage = ApiKeyUsage { requests_this_minute: 1, requests_this_day: 2 };
    assert!(key.is_eligible(&limits));
    key.usage = ApiKeyUsage { requests_this_minute: 2, requests_this_day: 2 };
    assert!(!key.is_eligible(&limits));
    key.usage = ApiKeyUsage { requests_this_minute: 1, requests_this_day: 3 };
    assert!(!key.is_eligible(&limits));
    key.usage = ApiKeyUsage { requests_this_minute: 0, requests_this_day: 0 };
    key.status = ApiKeyStatus::Inactive;
    assert!(!key.is_eligible(&limits));
    key.status = ApiKeyStatus::Active;
    assert!(!key.is_eligible(&Limits::new(0, 3, 100, 60)));
    assert!(!key.is_eligible(&Limits::new(2, 0, 100, 60)));
}

#[test]
fn deactivating_then_reactivating_gives_an_active_key_without_a_time() {
    let mut key = record("k1");
    key.record_use(Timestamp::new(1_500, 0));
    key.deactivate(Timestamp::new(2_000, 1));
    assert_eq!(key.status, ApiKeyStatus::Inactive);
    assert_eq!(key.deactivated_at, Some(Timestamp::new(2_000, 1)));
    key.reactivate();
    assert_eq!(key.status, ApiKeyStatus::Active);
    assert_eq!(key.deactivated_at, None);
    assert_eq!(key.usage, ApiKeyUsage { requests_this_minute: 1, requests_this_day: 1 });
    assert_eq!(key.last_used, Timestamp::new(1_500, 0));
    assert_eq!(key.created_at, Timestamp::new(1_000, 0));
}

#[test]
fn the_resets_clear_one_counter_each() {
    let mut key = record("k1");
    key.usage = ApiKeyUsage { requests_this_minute: 7, requests_this_day: 9 };
    key.reset_minute_usage();
    assert_eq!(key.usage, ApiKeyUsage { requests_this_minute: 0, requests_this_day: 9 });
    key.usage = ApiKeyUsage { requests_this_minute: u32::MAX, requests_this_day: u32::MAX };
    key.reset_day_usage();
    assert_eq!(key.usage, ApiKeyUsage { requests_this_minute: u32::MAX, requests_this_day: 0 });
}

#[test]
fn a_key_is_reinstated_only_after_its_cooldown() {
    let mut key = record("k1");
    key.deactivate(Timestamp::new(2_000, 0));

    assert!(!key.reinstate_if_cooled(Timestamp::new(2_300, 0), 300));
    assert_eq!(key.status, ApiKeyStatus::Inactive);
    assert_eq!(key.deactivated_at, Some(Timestamp::new(2_000, 0)));

    assert!(key.reinstate_if_cooled(Timestamp::new(2_300, 1), 300));
    assert_eq!(key.status, ApiKeyStatus::Active);
    assert_eq!(key.deactivated_at, None);

    assert!(!key.reinstate_if_cooled(Timestamp::new(9_000, 0), 300));
    assert_eq!(key.status, ApiKeyStatus::Active);
}

#[test]
fn an_inactive_key_without_a_time_is_not_reinstated() {
    let mut key = record("k1");
    key.status = ApiKeyStatus::Inactive;
    assert!(!key.reinstate_if_cooled(Timestamp::new(9_000_000, 0), 300));
    assert_eq!(key.status, ApiKeyStatus::Inactive);
}

#[test]
fn an_active_key_with_a_time_is_left_alone() {
    let mut key = record("k1");
    key.deactivated_at = Some(Timestamp::new(0, 0));
    assert!(!key.reinstate_if_cooled(Timestamp::new(9_000_000, 0), 300));
    assert_eq!(key.status, ApiKeyStatus::Active);
    assert_eq!(key.deactivated_at, Some(Timestamp::new(0, 0)));
}

#[test]
fn every_update_does_what_its_method_does() {
    let mut key = record("k1");
    key.apply(&RecordUpdate::Use { now: Timestamp::new(1_100, 0) });
    assert_eq!(key.usage, ApiKeyUsage { requests_this_minute: 1, requests_this_day: 1 });
    assert_eq!(key.last_used, Timestamp::new(1_100, 0));

    key.apply(&RecordUpdate::Deactivate { now: Timestamp::new(1_200, 0) });
    assert_eq!(key.status, ApiKeyStatus::Inactive);
    assert_eq!(key.deactivated_at, Some(Timestamp::new(1_200, 0)));

    key.apply(&RecordUpdate::Reinstate { now: Timestamp::new(1_250, 0), cooldown_seconds: 60 });
    assert_eq!(key.status, ApiKeyStatus::Inactive);
    key.apply(&RecordUpdate::Reinstate { now: Timestamp::new(1_261, 0), cooldown_seconds: 60 });
    assert_eq!(key.status, ApiKeyStatus::Active);
    assert_eq!(key.deactivated_at, None);

    key.apply(&RecordUpdate::Deactivate { now: Timestamp::new(1_300, 0) });
    key.apply(&RecordUpdate::Reactivate);
    assert_eq!(key.status, ApiKeyStatus::Active);
    assert_eq!(key.deactivated_at, None);

    key.apply(&RecordUpdate::ResetMinute);
    assert_eq!(key.usage, ApiKeyUsage { requests_this_minute: 0, requests_this_day: 1 });
    key.apply(&RecordUpdate::Use { now: Timestamp::new(1_400, 0) });
    key.apply(&RecordUpdate::ResetDay);
    assert_eq!(key.usage, ApiKeyUsage { requests_this_minute: 1, requests_this_day: 0 });
    assert_eq!(key.key, "k1");
    assert_eq!(key.created_at, Timestamp::new(1_000, 0));
}
