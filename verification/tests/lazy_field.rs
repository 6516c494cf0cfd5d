use issue_db_api::cache::CacheContainer;
use issue_db_api::lazy::LazyField;
use std::cell::Cell;

#[test]
fn empty_cell_holds_nothing() {
    let cell: LazyField<String> = LazyField::new();
    assert!(!cell.is_populated());
    assert_eq!(cell.get(), None);
    assert_eq!(cell.into_inner(), None);
}

#[test]
fn from_option_populates_exactly_when_a_value_is_given() {
    let full = LazyField::from_option(Some(7u64));
    let empty: LazyField<u64> = LazyField::from_option(None);
    assert_eq!(full.get(), Some(&7));
    assert!(full.is_populated());
    assert_eq!(empty.get(), None);
    assert!(!empty.is_populated());
}

#[test]
fn get_or_populate_stores_what_the_producer_returns() {
    let mut cell: LazyField<String> = LazyField::new();
    assert_eq!(cell.get_or_populate(|| "first".to_string()), "first");
    assert_eq!(cell.get(), Some(&"first".to_string()));
}

#[test]
fn producer_runs_once_over_many_accesses() {
    let runs = Cell::new(0u32);
    let mut cell: LazyField<u64> = LazyField::new();
    for _ in 0..50 {
        let value = *cell.get_or_populate(|| {
            runs.set(runs.get() + 1);
            41 + runs.get() as u64
        });
        assert_eq!(value, 42);
    }
    assert_eq!(runs.get(), 1);
}

#[test]
fn populated_cell_never_changes() {
    let mut cell = LazyField::from_option(Some("kept".to_string()));
    assert_eq!(cell.get_or_populate(|| "other".to_string()), "kept");
    cell.absorb(LazyField::from_option(Some("donor".to_string())));
    assert_eq!(cell.get(), Some(&"kept".to_string()));
    let again: Result<&String, ()> = cell.try_get_or_populate(|| Ok("third".to_string()));
    assert_eq!(again, Ok(&"kept".to_string()));
}

#[test]
fn failed_producer_leaves_the_cell_empty_and_retryable() {
    let mut cell: LazyField<u64> = LazyField::new();
    let failed = cell.try_get_or_populate(|| Err("timed out".to_string()));
    assert_eq!(failed, Err("timed out".to_string()));
    assert!(!cell.is_populated());
    let retried: Result<&u64, String> = cell.try_get_or_populate(|| Ok(5));
    assert_eq!(retried, Ok(&5));
    assert_eq!(cell.get(), Some(&5));
}

#[test]
fn failing_producer_is_not_called_on_a_populated_cell() {
    let runs = Cell::new(0u32);
    let mut cell = LazyField::from_option(Some(1u64));
    let value: Result<&u64, ()> = cell.try_get_or_populate(|| {
        runs.set(runs.get() + 1);
        Err(())
    });
    assert_eq!(value, Ok(&1));
    assert_eq!(runs.get(), 0);
}

#[test]
fn absorb_fills_only_an_empty_cell() {
    let mut empty: LazyField<u64> = LazyField::new();
    empty.absorb(LazyField::from_option(Some(9)));
    assert_eq!(empty.get(), Some(&9));

    let mut still_empty: LazyField<u64> = LazyField::new();
    still_empty.absorb(LazyField::new());
    assert_eq!(still_empty.get(), None);
}

#[test]
fn cache_container_fetches_once_and_can_be_overwritten() {
    let runs = Cell::new(0u32);
    let mut cache: CacheContainer<String> = CacheContainer::new(None);
    assert_eq!(cache.peek(), None);
    for _ in 0..3 {
        let value: Result<&String, ()> = cache.get(|| {
            runs.set(runs.get() + 1);
            Ok("remote".to_string())
        });
        assert_eq!(value, Ok(&"remote".to_string()));
    }
    assert_eq!(runs.get(), 1);
    cache.set("written".to_string());
    assert_eq!(cache.peek(), Some(&"written".to_string()));
}

#[test]
fn cache_container_stays_cold_after_a_failure() {
    let mut cache: CacheContainer<String> = CacheContainer::new(None);
    let failed = cache.get(|| Err(503u16));
    assert_eq!(failed, Err(503));
    assert_eq!(cache.peek(), None);
    let warm = CacheContainer::new(Some(3u8));
    assert_eq!(warm.peek(), Some(&3));
}
