use api_key_rotator::config::Limits;
use api_key_rotator::error::RotatorError;
use api_key_rotator::models::{ApiKey, ApiKeyStatus, ApiKeyUsage};
use api_key_rotator::routes::next::{
    commit, eligible_keys, get_next_key, oldest, select_next, selection_mode, NextQuery,
    SelectionMode,
};
use api_key_rotator::state::AppState;
use api_key_rotator::store::KeyStore;
use api_key_rotator::timestamp::Timestamp;

fn record(id: &str, last_used_secs: i64) -> ApiKey {
    let mut key = ApiKey::new_at(id.to_string(), Timestamp::new(100, 0));
    key.last_used = Timestamp::new(last_used_secs, 0);
    key
}

fn pool(limits: Limits, keys: Vec<ApiKey>) -> AppState {
    AppState::load(limits, keys)
}

fn usage_of(state: &AppState, id: &str) -> ApiKeyUsage {
    state.keys.get(id).unwrap().usage
}

#[test]
fn the_mode_random_is_the_only_one_that_draws() {
    let random = NextQuery { mode: Some("random".to_string()) };
    assert_eq!(selection_mode(&random), SelectionMode::Random);
    for other in ["auto", "", "Random", "RANDOM", "random ", "rand", "lru"] {
        let query = NextQuery { mode: Some(other.to_string()) };
        assert_eq!(selection_mode(&query), SelectionMode::Auto);
    }
    assert_eq!(selection_mode(&NextQuery { mode: None }), SelectionMode::Auto);
}

#[test]
fn without_keys_no_key_is_available() {
    let mut state = AppState::new(Limits::new(3, 3, 10, 60));
    assert_eq!(select_next(&mut state, SelectionMode::Auto), Err(RotatorError::NoAvailableKey));
    assert_eq!(select_next(&mut state, SelectionMode::Random), Err(RotatorError::NoAvailableKey));
}

#[test]
fn without_an_eligible_key_no_key_is_available() {
    let mut inactive = record("inactive", 1);
    inactive.status = ApiKeyStatus::Inactive;
    inactive.deactivated_at = Some(Timestamp::new(150, 0));
    let mut minute_full = record("minute-full", 2);
    minute_full.usage = ApiKeyUsage { requests_this_minute: 3, requests_this_day: 3 };
    let mut day_full = record("day-full", 3);
    day_full.usage = ApiKeyUsage { requests_this_minute: 0, requests_this_day: 5 };
    let mut state = pool(Limits::new(3, 5, 10, 60), vec![inactive, minute_full, day_full]);

    for mode in [SelectionMode::Auto, SelectionMode::Random] {
        assert_eq!(select_next(&mut state, mode), Err(RotatorError::NoAvailableKey));
    }

    assert_eq!(usage_of(&state, "inactive"), ApiKeyUsage::default());
    assert_eq!(
        usage_of(&state, "minute-full"),
        ApiKeyUsage { requests_this_minute: 3, requests_this_day: 3 }
    );
    assert_eq!(
        usage_of(&state, "day-full"),
        ApiKeyUsage { requests_this_minute: 0, requests_this_day: 5 }
    );
    assert_eq!(state.keys.get("inactive").unwrap().last_used, Timestamp::new(1, 0));
}

#[test]
fn a_request_that_finds_no_key_is_still_counted() {
    let mut state = AppState::new(Limits::new(3, 3, 2, 60));
    assert_eq!(state.total_requests_this_minute.current(), 0);
    assert_eq!(select_next(&mut state, SelectionMode::Auto), Err(RotatorError::NoAvailableKey));
    assert_eq!(state.total_requests_this_minute.current(), 1);
    assert_eq!(select_next(&mut state, SelectionMode::Auto), Err(RotatorError::NoAvailableKey));
    assert_eq!(state.total_requests_this_minute.current(), 2);
    assert_eq!(
        select_next(&mut state, SelectionMode::Auto),
        Err(RotatorError::RateLimitExceeded)
    );
    assert_eq!(state.total_requests_this_minute.current(), 2);
}

#[test]
fn at_the_ceiling_the_rate_limit_is_exceeded_and_nothing_changes() {
    let mut state = pool(Limits::new(10, 10, 3, 60), vec![record("a", 1), record("b", 2)]);
    for _ in 0..3 {
        assert!(select_next(&mut state, SelectionMode::Auto).is_ok());
    }
    let a = state.keys.get("a").unwrap();
    let b = state.keys.get("b").unwrap();

    for mode in [SelectionMode::Auto, SelectionMode::Random, SelectionMode::Auto] {
        assert_eq!(select_next(&mut state, mode), Err(RotatorError::RateLimitExceeded));
    }

    assert_eq!(state.total_requests_this_minute.current(), 3);
    assert_eq!(usage_of(&state, "a"), a.usage);
    assert_eq!(usage_of(&state, "b"), b.usage);
    assert_eq!(state.keys.get("a").unwrap().last_used, a.last_used);
    assert_eq!(state.keys.get("b").unwrap().last_used, b.last_used);
    assert_eq!(a.usage.requests_this_minute + b.usage.requests_this_minute, 3);
}

#[test]
fn a_ceiling_of_zero_admits_nothing() {
    let mut state = pool(Limits::new(10, 10, 0, 60), vec![record("a", 1)]);
    assert_eq!(
        select_next(&mut state, SelectionMode::Auto),
        Err(RotatorError::RateLimitExceeded)
    );
    assert_eq!(usage_of(&state, "a"), ApiKeyUsage::default());
    assert_eq!(state.total_requests_this_minute.current(), 0);
}

#[test]
fn a_selection_counts_one_use_of_one_key() {
    let mut state =
        pool(Limits::new(10, 10, 10, 60), vec![record("a", 30), record("b", 10), record("c", 20)]);
    let before = Timestamp::now();

    let chosen = select_next(&mut state, SelectionMode::Auto).unwrap();

    assert_eq!(chosen, "b");
    assert_eq!(usage_of(&state, "b"), ApiKeyUsage { requests_this_minute: 1, requests_this_day: 1 });
    assert_eq!(usage_of(&state, "a"), ApiKeyUsage::default());
    assert_eq!(usage_of(&state, "c"), ApiKeyUsage::default());
    assert_eq!(state.keys.get("a").unwrap().last_used, Timestamp::new(30, 0));
    assert_eq!(state.keys.get("c").unwrap().last_used, Timestamp::new(20, 0));
    let used = state.keys.get("b").unwrap();
    assert!(!used.last_used.is_before(&before));
    assert!(Timestamp::new(10, 0).is_before(&used.last_used));
    assert_eq!(used.created_at, Timestamp::new(100, 0));
    assert_eq!(used.status, ApiKeyStatus::Active);
    assert_eq!(state.total_requests_this_minute.current(), 1);
    assert_eq!(state.keys.len(), 3);
}

#[test]
fn a_random_selection_counts_one_use_of_one_key() {
    let mut state =
        pool(Limits::new(10, 10, 10, 60), vec![record("a", 30), record("b", 10), record("c", 20)]);

    let chosen = select_next(&mut state, SelectionMode::Random).unwrap();

    let mut total = 0;
    for id in ["a", "b", "c"] {
        let usage = usage_of(&state, id);
        if id == chosen {
            assert_eq!(usage, ApiKeyUsage { requests_this_minute: 1, requests_this_day: 1 });
        } else {
            assert_eq!(usage, ApiKeyUsage::default());
        }
        total += usage.requests_this_minute;
    }
    assert_eq!(total, 1);
    assert_eq!(state.total_requests_this_minute.current(), 1);
}

#[test]
fn auto_hands_out_the_eligible_key_that_rested_longest() {
    let mut oldest_but_inactive = record("inactive", 1);
    oldest_but_inactive.status = ApiKeyStatus::Inactive;
    let mut older_but_full = record("full", 2);
    older_but_full.usage = ApiKeyUsage { requests_this_minute: 2, requests_this_day: 2 };
    let mut state = pool(
        Limits::new(2, 5, 100, 60),
        vec![
            record("e", 50),
            oldest_but_inactive,
            record("c", 30),
            older_but_full,
            record("d", 40),
        ],
    );

    assert_eq!(select_next(&mut state, SelectionMode::Auto).unwrap(), "c");
    assert_eq!(select_next(&mut state, SelectionMode::Auto).unwrap(), "d");
    assert_eq!(select_next(&mut state, SelectionMode::Auto).unwrap(), "e");
}

#[test]
fn auto_orders_by_nanoseconds_too() {
    let mut a = record("a", 10);
    a.last_used = Timestamp::new(10, 500);
    let mut b = record("b", 10);
    b.last_used = Timestamp::new(10, 499);
    let mut c = record("c", 10);
    c.last_used = Timestamp::new(9, 999_999_999);
    let mut state = pool(Limits::new(5, 5, 100, 60), vec![a, b, c]);

    assert_eq!(select_next(&mut state, SelectionMode::Auto).unwrap(), "c");
    assert_eq!(select_next(&mut state, SelectionMode::Auto).unwrap(), "b");
    assert_eq!(select_next(&mut state, SelectionMode::Auto).unwrap(), "a");
}

#[test]
fn a_key_is_handed_out_until_it_reaches_its_minute_limit() {
    let mut state = pool(Limits::new(2, 100, 100, 60), vec![record("only", 1)]);
    assert_eq!(select_next(&mut state, SelectionMode::Auto).unwrap(), "only");
    assert_eq!(select_next(&mut state, SelectionMode::Random).unwrap(), "only");
    assert_eq!(select_next(&mut state, SelectionMode::Auto), Err(RotatorError::NoAvailableKey));
    assert_eq!(
        usage_of(&state, "only"),
        ApiKeyUsage { requests_this_minute: 2, requests_this_day: 2 }
    );
    assert_eq!(state.total_requests_this_minute.current(), 3);
}

#[test]
fn a_key_is_handed_out_until_it_reaches_its_day_limit() {
    let mut state = pool(Limits::new(100, 3, 100, 60), vec![record("only", 1)]);
    for _ in 0..3 {
        assert_eq!(select_next(&mut state, SelectionMode::Auto).unwrap(), "only");
    }
    assert_eq!(select_next(&mut state, SelectionMode::Auto), Err(RotatorError::NoAvailableKey));
    assert_eq!(
        usage_of(&state, "only"),
        ApiKeyUsage { requests_this_minute: 3, requests_this_day: 3 }
    );
}

#[test]
fn two_fresh_keys_take_turns() {
    let mut state = pool(Limits::new(100, 100, 100, 60), vec![record("k1", 10), record("k2", 20)]);
    let auto = NextQuery { mode: Some("auto".to_string()) };

    assert_eq!(get_next_key(&mut state, &auto).unwrap().api_key, "k1");
    assert_eq!(get_next_key(&mut state, &auto).unwrap().api_key, "k2");

    for _ in 0..6 {
        let k1 = state.keys.get("k1").unwrap().last_used;
        let k2 = state.keys.get("k2").unwrap().last_used;
        let chosen = get_next_key(&mut state, &auto).unwrap().api_key;
        if k1.is_before(&k2) {
            assert_eq!(chosen, "k1");
        } else if k2.is_before(&k1) {
            assert_eq!(chosen, "k2");
        } else {
            assert!(chosen == "k1" || chosen == "k2");
        }
    }
    let used = usage_of(&state, "k1").requests_this_minute
        + usage_of(&state, "k2").requests_this_minute;
    assert_eq!(used, 8);
    assert_eq!(state.total_requests_this_minute.current(), 8);
}

#[test]
fn an_unknown_mode_is_served_as_auto() {
    let mut state = pool(Limits::new(100, 100, 100, 60), vec![record("old", 10), record("new", 20)]);
    let query = NextQuery { mode: Some("round-robin".to_string()) };
    assert_eq!(get_next_key(&mut state, &query).unwrap().api_key, "old");
    let none = NextQuery { mode: None };
    assert_eq!(get_next_key(&mut state, &none).unwrap().api_key, "new");
}

#[test]
fn random_hands_out_eligible_keys_only() {
    let mut inactive = record("inactive", 1);
    inactive.status = ApiKeyStatus::Inactive;
    let mut full = record("full", 2);
    full.usage = ApiKeyUsage { requests_this_minute: 1_000, requests_this_day: 0 };
    let mut state =
        pool(Limits::new(1_000, 1_000, 10_000, 60), vec![inactive, record("a", 3), full, record("b", 4)]);
    let query = NextQuery { mode: Some("random".to_string()) };

    for _ in 0..200 {
        let chosen = get_next_key(&mut state, &query).unwrap().api_key;
        assert!(chosen == "a" || chosen == "b");
    }

    assert_eq!(usage_of(&state, "inactive"), ApiKeyUsage::default());
    assert_eq!(usage_of(&state, "full").requests_this_minute, 1_000);
    assert_eq!(
        usage_of(&state, "a").requests_this_minute + usage_of(&state, "b").requests_this_minute,
        200
    );
}

#[test]
fn random_spreads_its_choices_over_all_eligible_keys() {
    let ids = ["a", "b", "c", "d"];
    let keys: Vec<ApiKey> = ids.iter().map(|id| record(id, 1)).collect();
    let mut state = pool(Limits::new(100_000, 100_000, 100_000, 60), keys);

    for _ in 0..4_000 {
        select_next(&mut state, SelectionMode::Random).unwrap();
    }

    let mut total = 0;
    for id in ids {
        let count = usage_of(&state, id).requests_this_minute;
        assert!(count > 700, "{} was chosen {} times", id, count);
        assert!(count < 1_300, "{} was chosen {} times", id, count);
        total += count;
    }
    assert_eq!(total, 4_000);
}

#[test]
fn the_eligible_keys_are_the_active_ones_under_their_limits() {
    let mut store = KeyStore::new();
    let mut inactive = record("inactive", 1);
    inactive.status = ApiKeyStatus::Inactive;
    let mut full = record("full", 2);
    full.usage = ApiKeyUsage { requests_this_minute: 0, requests_this_day: 7 };
    store.insert(inactive);
    store.insert(full);
    store.insert(record("a", 3));
    store.insert(record("b", 4));

    let mut ids: Vec<String> = eligible_keys(&store, &Limits::new(5, 7, 100, 60))
        .into_iter()
        .map(|record| record.key)
        .collect();
    ids.sort();
    assert_eq!(ids, vec!["a".to_string(), "b".to_string()]);

    let mut ids: Vec<String> = eligible_keys(&store, &Limits::new(5, 8, 100, 60))
        .into_iter()
        .map(|record| record.key)
        .collect();
    ids.sort();
    assert_eq!(ids, vec!["a".to_string(), "b".to_string(), "full".to_string()]);

    assert!(eligible_keys(&store, &Limits::new(0, 8, 100, 60)).is_empty());
    assert!(eligible_keys(&KeyStore::new(), &Limits::new(5, 8, 100, 60)).is_empty());
}

#[test]
fn the_oldest_candidate_is_the_first_with_the_earliest_last_use() {
    assert_eq!(oldest(&Vec::new()), None);
    assert_eq!(oldest(&vec![record("a", 5)]), Some(0));
    assert_eq!(oldest(&vec![record("a", 5), record("b", 3), record("c", 4)]), Some(1));
    assert_eq!(oldest(&vec![record("a", 5), record("b", 3), record("c", 3)]), Some(1));
    assert_eq!(oldest(&vec![record("a", 2), record("b", 2), record("c", 2)]), Some(0));
    assert_eq!(oldest(&vec![record("a", 9), record("b", 8), record("c", -7)]), Some(2));
}

#[test]
fn committing_counts_the_use_at_the_given_time() {
    let mut state = pool(Limits::new(10, 10, 10, 60), vec![record("a", 1), record("b", 2)]);

    let outcome = commit(&mut state, Some("b".to_string()), Timestamp::new(777, 8));

    assert_eq!(outcome, Ok("b".to_string()));
    let b = state.keys.get("b").unwrap();
    assert_eq!(b.usage, ApiKeyUsage { requests_this_minute: 1, requests_this_day: 1 });
    assert_eq!(b.last_used, Timestamp::new(777, 8));
    assert_eq!(usage_of(&state, "a"), ApiKeyUsage::default());
    assert_eq!(state.total_requests_this_minute.current(), 0);
}

#[test]
fn committing_counts_the_use_of_a_key_that_is_no_longer_eligible() {
    let mut inactive = record("a", 1);
    inactive.status = ApiKeyStatus::Inactive;
    inactive.usage = ApiKeyUsage { requests_this_minute: 10, requests_this_day: 10 };
    let mut state = pool(Limits::new(10, 10, 10, 60), vec![inactive]);

    let outcome = commit(&mut state, Some("a".to_string()), Timestamp::new(5, 0));

    assert_eq!(outcome, Ok("a".to_string()));
    assert_eq!(usage_of(&state, "a"), ApiKeyUsage { requests_this_minute: 11, requests_this_day: 11 });
    assert_eq!(state.keys.get("a").unwrap().status, ApiKeyStatus::Inactive);
}

#[test]
fn committing_a_key_that_is_gone_is_an_internal_error() {
    let mut state = pool(Limits::new(10, 10, 10, 60), vec![record("a", 1)]);

    let gone = commit(&mut state, Some("b".to_string()), Timestamp::new(5, 0));
    assert_eq!(gone, Err(RotatorError::InternalError));
    let nothing = commit(&mut state, None, Timestamp::new(5, 0));
    assert_eq!(nothing, Err(RotatorError::InternalError));

    assert_eq!(state.keys.len(), 1);
    assert_eq!(usage_of(&state, "a"), ApiKeyUsage::default());
    assert_eq!(state.keys.get("a").unwrap().last_used, Timestamp::new(1, 0));
}
