use rate_sync::day::Day;
use rate_sync::model::{Currencie, Rate};
use rate_sync::store::{RateStore, StoreError};

#[test]
fn new_store_is_empty() {
    let store = RateStore::new();
    assert_eq!(store.len(), 0);
    assert!(store.find_by_code("USD").is_none());
    assert!(!store.contains("USD"));
}

#[test]
fn upsert_then_find() {
    let mut store = RateStore::new();
    assert_eq!(store.upsert(Currencie::placeholder("USD")), Ok(()));
    let found = store.find_by_code("USD").expect("row for USD");
    assert_eq!(found.name.as_deref(), Some("USD"));
    assert_eq!(found.rate, Some(Rate::zero()));
    assert!(store.find_by_code("EUR").is_none());
    assert_eq!(store.len(), 1);
}

#[test]
fn upsert_replaces_the_row_of_the_code() {
    let mut store = RateStore::new();
    store.upsert(Currencie::placeholder("USD")).unwrap();
    store.upsert(Currencie::placeholder("EUR")).unwrap();
    let mut usd = Currencie::placeholder("USD");
    usd.refresh(Rate::from_bits(1.5f64.to_bits()), Day::new(2024, 5, 17));
    store.upsert(usd).unwrap();
    assert_eq!(store.len(), 2);
    let found = store.find_by_code("USD").unwrap();
    assert_eq!(found.rate, Some(Rate::from_bits(1.5f64.to_bits())));
    assert_eq!(found.last_update_day, Some(Day::new(2024, 5, 17)));
    let other = store.find_by_code("EUR").unwrap();
    assert_eq!(other.rate, Some(Rate::zero()));
    assert_eq!(other.last_update_day, None);
}

#[test]
fn upsert_refuses_a_row_without_name() {
    let mut store = RateStore::new();
    store.upsert(Currencie::placeholder("USD")).unwrap();
    let mut nameless = Currencie::placeholder("EUR");
    nameless.name = None;
    assert_eq!(store.upsert(nameless), Err(StoreError::Unnamed));
    assert_eq!(store.len(), 1);
    assert!(store.contains("USD"));
    assert!(!store.contains("EUR"));
}

#[test]
fn codes_are_compared_exactly() {
    let mut store = RateStore::new();
    store.upsert(Currencie::placeholder("USD")).unwrap();
    assert!(!store.contains("usd"));
    assert!(!store.contains("US"));
    assert!(!store.contains("USDT"));
    assert!(!store.contains(""));
}
