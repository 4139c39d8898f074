use std::time::Duration;

use passkey_auth::challenge_store::ChallengeStore;

#[test]
fn insert_then_consume_returns_the_state_once() {
    let mut store = ChallengeStore::with_ttl_nanos(60);
    store.insert_at(7, vec![1, 2, 3], 100);
    assert_eq!(store.consume_at(7, 130), Some(vec![1, 2, 3]));
    // Replay: the entry was deleted by the first consume.
    assert_eq!(store.consume_at(7, 131), None);
}

#[test]
fn consume_at_the_last_moment_of_the_ttl_succeeds() {
    let mut store = ChallengeStore::with_ttl_nanos(60);
    store.insert_at(1, vec![9], 100);
    assert_eq!(store.consume_at(1, 160), Some(vec![9]));
}

#[test]
fn expired_entry_is_not_handed_out_and_is_deleted() {
    let mut store = ChallengeStore::with_ttl_nanos(60);
    store.insert_at(1, vec![9], 100);
    assert_eq!(store.consume_at(1, 161), None);
    store.insert_at(2, vec![8], 100);
    assert_eq!(store.consume_at(1, 100), None);
    assert_eq!(store.consume_at(2, 100), Some(vec![8]));
}

#[test]
fn unknown_id_gives_nothing() {
    let mut store = ChallengeStore::with_ttl_nanos(60);
    assert_eq!(store.consume_at(42, 0), None);
}

#[test]
fn insert_replaces_state_under_the_same_id() {
    let mut store = ChallengeStore::with_ttl_nanos(60);
    store.insert_at(3, vec![1], 0);
    store.insert_at(3, vec![2], 10);
    assert_eq!(store.consume_at(3, 65), Some(vec![2]));
}

#[test]
fn reap_removes_only_expired_entries() {
    let mut store = ChallengeStore::with_ttl_nanos(60);
    store.insert_at(1, vec![1], 0);
    store.insert_at(2, vec![2], 50);
    store.insert_at(3, vec![3], 100);
    store.reap_expired_at(110);
    // Entry 1 expired at 110 (110 > 0 + 60); the others did not.
    assert_eq!(store.consume_at(2, 110), Some(vec![2]));
    assert_eq!(store.consume_at(3, 110), Some(vec![3]));
    assert_eq!(store.consume_at(1, 0), None);
}

#[test]
fn clock_driven_store_is_single_use() {
    let mut store = ChallengeStore::new(Duration::from_secs(60));
    let id = store.insert(b"state".to_vec());
    assert_eq!(store.consume(id), Some(b"state".to_vec()));
    assert_eq!(store.consume(id), None);
}

#[test]
fn fresh_ids_differ() {
    let mut store = ChallengeStore::new(Duration::from_secs(60));
    let a = store.insert(vec![1]);
    let b = store.insert(vec![2]);
    assert_ne!(a, b);
    for id in [a, b] {
        assert_eq!((id >> 76) & 0xf, 4);
        assert_eq!((id >> 62) & 3, 2);
    }
    store.reap_expired();
    assert_eq!(store.consume(b), Some(vec![2]));
    assert_eq!(store.consume(a), Some(vec![1]));
}

#[test]
fn zero_ttl_store_expires_entries_once_time_passes() {
    let mut store = ChallengeStore::with_ttl_nanos(0);
    store.insert_at(5, vec![5], 10);
    assert_eq!(store.consume_at(5, 11), None);
}

#[test]
fn store_intervals() {
    assert_eq!(passkey_auth::challenge_store::CHALLENGE_TTL_SECS, 60);
    assert_eq!(passkey_auth::challenge_store::CHALLENGE_REAP_INTERVAL_SECS, 30);
    assert_eq!(passkey_auth::sessions::SESSION_CLEANUP_INTERVAL_SECS, 300);
}
