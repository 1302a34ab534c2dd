use relaypulse_monitor::interval::{IntervalStore, DEFAULT_INTERVAL_MS};
use std::sync::{Arc, Mutex};

#[test]
fn default_interval_is_5000() {
    let store = IntervalStore::new();
    assert_eq!(store.get(), 5000);
    assert_eq!(DEFAULT_INTERVAL_MS, 5000);
}

#[test]
fn default_trait_gives_the_default_interval() {
    let store = IntervalStore::default();
    assert_eq!(store.get(), 5000);
}

#[test]
fn set_then_get_returns_the_value() {
    let mut store = IntervalStore::new();
    store.set(1000);
    assert_eq!(store.get(), 1000);
    store.set(250);
    assert_eq!(store.get(), 250);
}

#[test]
fn set_accepts_the_extremes() {
    let mut store = IntervalStore::new();
    store.set(0);
    assert_eq!(store.get(), 0);
    store.set(u64::MAX);
    assert_eq!(store.get(), u64::MAX);
    store.set(1);
    assert_eq!(store.get(), 1);
}

#[test]
fn get_is_stable_until_the_next_set() {
    let mut store = IntervalStore::new();
    store.set(42);
    let first = store.get();
    let second = store.get();
    let third = store.get();
    assert_eq!(first, 42);
    assert_eq!(second, 42);
    assert_eq!(third, 42);
}

#[test]
fn set_overwrites_and_keeps_nothing_of_the_old_value() {
    let mut store = IntervalStore::new();
    store.set(0xFFFF_FFFF_0000_0000);
    store.set(0x0000_0000_FFFF_FFFF);
    assert_eq!(store.get(), 0x0000_0000_FFFF_FFFF);
}

#[test]
fn two_readers_behind_one_lock_see_the_value_that_was_set() {
    let shared = Arc::new(Mutex::new(IntervalStore::new()));
    shared.lock().unwrap().set(1000);
    let first = Arc::clone(&shared);
    let second = Arc::clone(&shared);
    let a = first.lock().unwrap().get();
    let b = second.lock().unwrap().get();
    assert_eq!(a, 1000);
    assert_eq!(b, 1000);
}
