use kvstore::KeyValueStore;
use std::time::{Duration, Instant};

fn wait(d: Duration) {
    let start = Instant::now();
    while start.elapsed() < d {
        std::hint::spin_loop();
    }
}

#[test]
fn insert_and_get() {
    let mut kvs = KeyValueStore::new();
    let (key, value) = (1, 1);
    assert_eq!(kvs.insert(key, value, None), Ok(None));
    assert_eq!(kvs.get(&key), Ok(Some(value)));
}

#[test]
fn update_and_get() {
    let mut kvs = KeyValueStore::new();
    let (key, value, update) = (1, 1, 2);
    assert_eq!(kvs.insert(key, value, None), Ok(None));
    assert_eq!(kvs.insert(key, update, None), Ok(Some(value)));
    assert_eq!(kvs.get(&key), Ok(Some(update)));
}

#[test]
fn empty_get() {
    let mut kvs = KeyValueStore::<_, ()>::new();
    assert_eq!(kvs.get(&1), Ok(None));
}

#[test]
fn expired() {
    let mut kvs = KeyValueStore::new();
    let (key, value, expiration) = (1, 1, Duration::from_secs(1));
    assert_eq!(kvs.insert(key, value, Some(expiration.as_nanos())), Ok(None));
    assert_eq!(kvs.get(&key), Ok(Some(value)));
    wait(expiration);
    assert_eq!(kvs.get(&key), Ok(None));
}

#[test]
fn scenario_overwrite_then_remove() {
    let mut kvs = KeyValueStore::new();
    assert_eq!(kvs.insert("a", 1, None), Ok(None));
    assert_eq!(kvs.get(&"a"), Ok(Some(1)));
    assert_eq!(kvs.insert("a", 2, None), Ok(Some(1)));
    assert_eq!(kvs.get(&"a"), Ok(Some(2)));
    assert_eq!(kvs.remove(&"a"), Ok(Some(2)));
    assert_eq!(kvs.get(&"a"), Ok(None));
}

#[test]
fn scenario_expiry_after_one_second() {
    let mut kvs = KeyValueStore::new();
    assert_eq!(kvs.insert("b", 5, Some(Duration::from_secs(1).as_nanos())), Ok(None));
    assert_eq!(kvs.get(&"b"), Ok(Some(5)));
    wait(Duration::from_millis(1500));
    assert_eq!(kvs.get(&"b"), Ok(None));
    assert_eq!(kvs.get(&"b"), Ok(None));
}

#[test]
fn remove_after_expired_get_is_absent() {
    let mut kvs = KeyValueStore::new();
    assert_eq!(kvs.insert(7u64, 70u64, Some(1)), Ok(None));
    wait(Duration::from_millis(5));
    assert_eq!(kvs.get(&7), Ok(None));
    assert_eq!(kvs.remove(&7), Ok(None));
    assert_eq!(kvs.get(&7), Ok(None));
}

#[test]
fn remove_missing_key() {
    let mut kvs = KeyValueStore::<u64, u64>::new();
    assert_eq!(kvs.remove(&3), Ok(None));
}

#[test]
fn zero_ttl_is_valid_until_time_moves_on() {
    let mut kvs = KeyValueStore::new();
    assert_eq!(kvs.insert(1u64, 10u64, Some(0)), Ok(None));
    wait(Duration::from_millis(5));
    assert_eq!(kvs.get(&1), Ok(None));
}

#[test]
fn huge_ttl_never_expires() {
    let mut kvs = KeyValueStore::new();
    assert_eq!(kvs.insert(1u64, 10u64, Some(u128::MAX)), Ok(None));
    assert_eq!(kvs.get(&1), Ok(Some(10)));
}

#[test]
fn insert_returns_value_with_ttl_replaced() {
    let mut kvs = KeyValueStore::new();
    assert_eq!(kvs.insert(1u64, 10u64, Some(Duration::from_secs(60).as_nanos())), Ok(None));
    assert_eq!(kvs.insert(1u64, 11u64, None), Ok(Some(10)));
    assert_eq!(kvs.get(&1), Ok(Some(11)));
}

#[test]
fn clones_share_entries() {
    let mut a = KeyValueStore::new();
    let mut b = a.clone();
    assert_eq!(a.insert(String::from("k"), vec![1u8, 2], None), Ok(None));
    assert_eq!(b.get(&String::from("k")), Ok(Some(vec![1u8, 2])));
    assert_eq!(b.remove(&String::from("k")), Ok(Some(vec![1u8, 2])));
    assert_eq!(a.get(&String::from("k")), Ok(None));
}

#[test]
fn distinct_keys_all_retrieved() {
    let mut kvs = KeyValueStore::new();
    let mut handles = Vec::new();
    for _ in 0..8 {
        handles.push(kvs.clone());
    }
    for (i, h) in handles.iter_mut().enumerate() {
        assert_eq!(h.insert(i as u64, 100 + i as u64, None), Ok(None));
    }
    for i in 0..8u64 {
        assert_eq!(kvs.get(&i), Ok(Some(100 + i)));
    }
}

#[test]
fn store_handle_is_send_and_sync() {
    fn shareable<T: Send + Sync + Clone>() {}
    shareable::<KeyValueStore<u64, String>>();
}
