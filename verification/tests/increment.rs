use counter_service::CounterError;
use counter_service::DiagnosticLog;
use counter_service::IncrementContract;
use counter_service::Store;
use counter_service::encode_u32;

#[test]
fn test() {
    let mut store = Store::new();
    let mut log = DiagnosticLog::new();
    assert_eq!(IncrementContract::increment(&mut store, &mut log), Ok(1));
    assert_eq!(IncrementContract::increment(&mut store, &mut log), Ok(2));
    assert_eq!(IncrementContract::increment(&mut store, &mut log), Ok(3));
}

#[test]
fn monotonic_returns_one_through_five() {
    let mut store = Store::new();
    let mut log = DiagnosticLog::new();
    for expected in 1u32..=5 {
        assert_eq!(IncrementContract::increment(&mut store, &mut log), Ok(expected));
    }
}

#[test]
fn absent_counter_reads_as_not_found_then_zero() {
    let mut store = Store::new();
    let mut log = DiagnosticLog::new();
    assert_eq!(store.get(), Ok(None));
    assert_eq!(IncrementContract::increment(&mut store, &mut log), Ok(1));
    let one = encode_u32(1);
    assert_eq!(store.get(), Ok(Some(&one)));
}

#[test]
fn atomic_on_set_failure() {
    let mut store = Store::new();
    let mut log = DiagnosticLog::new();
    store.set(encode_u32(7)).unwrap();
    store.extend_ttl(50, 100).unwrap();
    store.inject_set_failure(true);
    assert_eq!(
        IncrementContract::increment(&mut store, &mut log),
        Err(CounterError::StoreUnavailable)
    );
    let seven = encode_u32(7);
    assert_eq!(store.get(), Ok(Some(&seven)));
    assert_eq!(store.remaining_ttl(), Some(100));
}

#[test]
fn atomic_on_extend_ttl_failure() {
    let mut store = Store::new();
    let mut log = DiagnosticLog::new();
    store.set(encode_u32(7)).unwrap();
    store.extend_ttl(50, 100).unwrap();
    store.inject_extend_ttl_failure(true);
    assert_eq!(
        IncrementContract::increment(&mut store, &mut log),
        Err(CounterError::StoreUnavailable)
    );
    let seven = encode_u32(7);
    assert_eq!(store.get(), Ok(Some(&seven)));
    assert_eq!(store.remaining_ttl(), Some(100));
}

#[test]
fn atomic_on_extend_ttl_failure_with_fresh_store() {
    let mut store = Store::new();
    let mut log = DiagnosticLog::new();
    store.inject_extend_ttl_failure(true);
    assert_eq!(
        IncrementContract::increment(&mut store, &mut log),
        Err(CounterError::StoreUnavailable)
    );
    assert_eq!(store.get(), Ok(None));
    assert_eq!(store.remaining_ttl(), None);
}

#[test]
fn ttl_watermark_on_fresh_store() {
    let mut store = Store::new();
    let mut log = DiagnosticLog::new();
    IncrementContract::increment(&mut store, &mut log).unwrap();
    assert_eq!(store.remaining_ttl(), Some(100));
    IncrementContract::increment(&mut store, &mut log).unwrap();
    assert_eq!(store.remaining_ttl(), Some(100));
}

#[test]
fn ttl_watermark_noop_above_horizon() {
    let mut store = Store::new();
    let mut log = DiagnosticLog::new();
    store.set(encode_u32(3)).unwrap();
    store.extend_ttl(150, 150).unwrap();
    assert_eq!(store.remaining_ttl(), Some(150));
    assert_eq!(IncrementContract::increment(&mut store, &mut log), Ok(4));
    assert_eq!(store.remaining_ttl(), Some(150));
}

#[test]
fn ttl_watermark_extends_lapsing_entry() {
    let mut store = Store::new();
    let mut log = DiagnosticLog::new();
    IncrementContract::increment(&mut store, &mut log).unwrap();
    store.advance(60);
    assert_eq!(store.remaining_ttl(), Some(40));
    IncrementContract::increment(&mut store, &mut log).unwrap();
    assert_eq!(store.remaining_ttl(), Some(100));
}

#[test]
fn overflow_boundary_fails_and_preserves_value() {
    let mut store = Store::new();
    let mut log = DiagnosticLog::new();
    store.set(encode_u32(u32::MAX)).unwrap();
    assert_eq!(
        IncrementContract::increment(&mut store, &mut log),
        Err(CounterError::Overflow)
    );
    let max = encode_u32(u32::MAX);
    assert_eq!(store.get(), Ok(Some(&max)));
    assert_eq!(log.entries(), &vec![u32::MAX]);
}

#[test]
fn undecodable_entry_fails_and_preserves_value() {
    let mut store = Store::new();
    let mut log = DiagnosticLog::new();
    store.set(vec![1, 2, 3]).unwrap();
    assert_eq!(
        IncrementContract::increment(&mut store, &mut log),
        Err(CounterError::SerializationError)
    );
    let bad = vec![1u8, 2, 3];
    assert_eq!(store.get(), Ok(Some(&bad)));
    assert_eq!(log.entries().len(), 0);
}

#[test]
fn unreachable_storage_fails_the_call() {
    let mut store = Store::new();
    let mut log = DiagnosticLog::new();
    store.inject_get_failure(true);
    assert_eq!(
        IncrementContract::increment(&mut store, &mut log),
        Err(CounterError::StoreUnavailable)
    );
    assert_eq!(log.entries().len(), 0);
}

#[test]
fn next_value_increments_and_rejects_maximum() {
    assert_eq!(IncrementContract::next_value(5), Ok(6));
    assert_eq!(IncrementContract::next_value(u32::MAX - 1), Ok(u32::MAX));
    assert_eq!(IncrementContract::next_value(u32::MAX), Err(CounterError::Overflow));
}

#[test]
fn eviction_resets_the_counter() {
    let mut store = Store::new();
    let mut log = DiagnosticLog::new();
    IncrementContract::increment(&mut store, &mut log).unwrap();
    IncrementContract::increment(&mut store, &mut log).unwrap();
    store.advance(100);
    assert_eq!(store.get(), Ok(None));
    assert_eq!(IncrementContract::increment(&mut store, &mut log), Ok(1));
}

#[test]
fn diagnostic_log_records_pre_increment_values() {
    let mut store = Store::new();
    let mut log = DiagnosticLog::new();
    IncrementContract::increment(&mut store, &mut log).unwrap();
    IncrementContract::increment(&mut store, &mut log).unwrap();
    IncrementContract::increment(&mut store, &mut log).unwrap();
    assert_eq!(log.entries(), &vec![0, 1, 2]);
}
