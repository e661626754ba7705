use send_cells::PoisonedError;
use send_cells::SyncCell;
use send_cells::sync_cell::LockEvent;
use send_cells::sync_cell::LockState;
use send_cells::sync_cell::lock_step;
use std::collections::HashMap;
use std::sync::Arc;
use std::sync::Mutex;

fn assert_send<T: Send>(_: &T) {}

fn assert_sync<T: Sync>(_: &T) {}

#[test]
fn test_basic_usage() {
    let mut cell = SyncCell::new(42);

    let result = cell.with(|value| *value * 2).unwrap();
    assert_eq!(result, 84);

    cell.with_mut(|_value| (100, ())).unwrap();
    let result = cell.with(|value| *value).unwrap();
    assert_eq!(result, 100);
}

#[test]
fn test_into_inner() {
    let cell = SyncCell::new(42);
    assert_eq!(cell.into_inner(), 42);
}

#[test]
fn test_debug() {
    let cell = SyncCell::new(42);
    let debug_str = cell.debug_string();
    assert_eq!(debug_str, "42");
}

#[test]
fn test_display() {
    let cell = SyncCell::new(42);
    let display_str = cell.display_string();
    assert_eq!(display_str, "42");

    let cell_str = SyncCell::new("hello world");
    let display_str = cell_str.display_string();
    assert_eq!(display_str, "hello world");
}

#[test]
fn test_default() {
    let cell: SyncCell<i32> = SyncCell::default();
    let value = cell.with(|v| *v).unwrap();
    assert_eq!(value, 0);
}

#[test]
fn test_from() {
    let cell: SyncCell<i32> = SyncCell::from(42);
    let value = cell.with(|v| *v).unwrap();
    assert_eq!(value, 42);
}

#[test]
fn test_clone() {
    let mut cell = SyncCell::new(42);
    let cloned = cell.clone();

    assert_eq!(cell.with(|v| *v).unwrap(), cloned.with(|v| *v).unwrap());

    cell.with_mut(|_v| (100, ())).unwrap();
    assert_eq!(cell.with(|v| *v).unwrap(), 100);
    assert_eq!(cloned.with(|v| *v).unwrap(), 42); // Clone is independent
}

#[test]
fn test_partial_eq() {
    let cell1 = SyncCell::new(42);
    let cell2 = SyncCell::new(42);
    let cell3 = SyncCell::new(43);

    assert_eq!(cell1, cell2);
    assert_ne!(cell1, cell3);
}

#[test]
fn test_ord() {
    let cell1 = SyncCell::new(1);
    let cell2 = SyncCell::new(2);
    let cell3 = SyncCell::new(3);

    assert!(cell1 < cell2);
    assert!(cell2 < cell3);
    assert!(cell1 < cell3);
}

#[test]
fn test_hash() {
    let cell1 = SyncCell::new(42);
    let cell2 = SyncCell::new(42);
    let cell3 = SyncCell::new(43);

    let mut map = HashMap::new();
    map.insert(cell1, "first");
    map.insert(cell2, "second"); // Should overwrite due to same hash/eq
    map.insert(cell3, "third");

    assert_eq!(map.len(), 2);
}

#[test]
fn test_send_sync() {
    let cell = SyncCell::new(42);
    assert_send(&cell);
    assert_sync(&cell);
}

#[test]
fn test_no_deadlock_on_nested_access() {
    let mut cell = SyncCell::new(vec![1, 2, 3]);

    let result = cell.with(|vec| vec.len()).unwrap();
    assert_eq!(result, 3);

    cell.with_mut(|vec| {
        let mut grown = vec.clone();
        grown.push(4);
        (grown, ())
    })
    .unwrap();

    let new_len = cell.with(|vec| vec.len()).unwrap();
    assert_eq!(new_len, 4);
}

#[test]
fn scoped_read_returns_a_clone_of_the_value() {
    let v = vec![1, 2, 3];
    let cell = SyncCell::new(v.clone());
    assert_eq!(cell.with(|x| x.clone()).unwrap(), v);
}

#[test]
fn serialized_increments_lose_no_update() {
    let cell = Arc::new(Mutex::new(SyncCell::new(0u64)));
    let mut handles = Vec::new();
    for _ in 0..4 {
        let shared = Arc::clone(&cell);
        handles.push(wasm_thread::spawn(move || {
            for _ in 0..100 {
                shared.lock().unwrap().with_mut(|v| (*v + 1, ())).unwrap();
            }
        }));
    }
    for handle in handles {
        handle.join().unwrap();
    }
    let total = cell.lock().unwrap().with(|v| *v).unwrap();
    assert_eq!(total, 400);
}

#[test]
fn poisoned_cell_refuses_every_scoped_access() {
    let mut cell = SyncCell::new(7);
    assert!(!cell.is_poisoned());

    cell.poison();
    assert!(cell.is_poisoned());

    assert_eq!(cell.with(|v| *v), Err(PoisonedError));
    assert_eq!(cell.with_mut(|v| (*v + 1, ())), Err(PoisonedError));
    assert_eq!(cell.with(|v| *v), Err(PoisonedError));

    // Ownership still recovers the value untouched.
    assert_eq!(cell.into_inner(), 7);
}

#[test]
fn unchecked_access_bypasses_the_poisoned_state() {
    let mut cell = SyncCell::new(5);
    cell.poison();
    assert_eq!(*cell.with_unchecked(), 5);
    *cell.with_mut_unchecked() = 6;
    assert_eq!(*cell.with_unchecked(), 6);
    assert!(cell.is_poisoned());
}

#[test]
fn lock_lifecycle_grants_exclusively() {
    assert_eq!(
        lock_step(LockState::Unlocked, LockEvent::Acquire),
        (LockState::Locked, true)
    );
    assert_eq!(
        lock_step(LockState::Locked, LockEvent::Acquire),
        (LockState::Locked, false)
    );
    assert_eq!(
        lock_step(LockState::Locked, LockEvent::ReleaseClean),
        (LockState::Unlocked, false)
    );
}

#[test]
fn lock_lifecycle_poison_is_absorbing() {
    let (state, granted) = lock_step(LockState::Locked, LockEvent::ReleaseAbnormal);
    assert_eq!(state, LockState::Poisoned);
    assert!(!granted);

    for event in [
        LockEvent::Acquire,
        LockEvent::ReleaseClean,
        LockEvent::ReleaseAbnormal,
    ] {
        let (next, granted) = lock_step(LockState::Poisoned, event);
        assert_eq!(next, LockState::Poisoned);
        assert!(!granted);
    }
}
