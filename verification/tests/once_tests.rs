use safe_once::cell::once_cell::RawOnceCell;
use safe_once::error::{LockError, PoisonError};
use safe_once::lazy::Lazy;
use safe_once::once::{Once, OnceEntry};

type CellOnce<T> = Once<RawOnceCell, T>;

#[test]
fn preseeded_init_returns_value_without_initializer() {
    let mut once: CellOnce<u32> = Once::from_value(7);
    assert_eq!(once.get(), Some(&7));
    let mut ran = false;
    let v = *once.get_or_init(|| {
        ran = true;
        9
    });
    assert_eq!(v, 7);
    assert!(!ran);
}

#[test]
fn get_or_init_runs_initializer_exactly_once() {
    let mut once: CellOnce<u32> = Once::new();
    let mut runs = 0;
    let a = *once.get_or_init(|| {
        runs += 1;
        41
    });
    let b = *once.get_or_init(|| {
        runs += 1;
        42
    });
    assert_eq!(a, 41);
    assert_eq!(b, 41);
    assert_eq!(runs, 1);
}

#[test]
fn lock_then_or_init() {
    let mut once: CellOnce<String> = Once::new();
    let e = once.lock();
    assert_eq!(e, OnceEntry::Vacant);
    let v = once.or_init(e, || String::from("hello")).clone();
    assert_eq!(v, "hello");
    let e2 = once.lock();
    assert_eq!(e2, OnceEntry::Occupied);
    let v2 = once.or_init(e2, || unreachable!());
    assert_eq!(*v2, "hello");
}

#[test]
fn reentrant_lock_fails_with_cycle() {
    let mut once: CellOnce<u32> = Once::new();
    assert!(matches!(once.lock_checked(), Ok(OnceEntry::Vacant)));
    assert!(matches!(once.lock_checked(), Err(LockError::CycleError)));
    assert!(matches!(once.get_or_init_checked(|| 1), Err(LockError::CycleError)));
    once.init(5);
    assert!(matches!(once.lock_checked(), Ok(OnceEntry::Occupied)));
    assert_eq!(once.get(), Some(&5));
}

#[test]
fn abandoned_writer_poisons_permanently() {
    let mut once: CellOnce<u32> = Once::new();
    assert!(matches!(once.try_lock_checked(), Ok(Some(OnceEntry::Vacant))));
    once.abandon();
    assert!(matches!(once.try_get_checked(), Err(PoisonError)));
    assert!(matches!(once.try_lock_checked(), Err(PoisonError)));
    assert!(matches!(once.lock_checked(), Err(LockError::PoisonError)));
    assert!(matches!(once.get_or_init_checked(|| 1), Err(LockError::PoisonError)));
    assert!(matches!(once.get_checked(), Err(LockError::PoisonError)));
    assert_eq!(once.into_inner(), None);
    assert!(matches!(once.try_get_checked(), Err(PoisonError)));
}

#[test]
fn into_inner_takes_value_and_poisons() {
    let mut once: CellOnce<u32> = Once::from_value(3);
    assert_eq!(once.into_inner(), Some(3));
    assert!(matches!(once.try_get_checked(), Err(PoisonError)));

    let mut empty: CellOnce<u32> = Once::new();
    assert_eq!(empty.into_inner(), None);
    assert!(matches!(empty.try_get_checked(), Ok(None)));
    assert!(matches!(empty.try_lock_checked(), Ok(Some(OnceEntry::Vacant))));
}

#[test]
fn try_lock_reports_would_block_without_error() {
    let mut once: CellOnce<u32> = Once::new();
    assert_eq!(once.try_lock(), Some(OnceEntry::Vacant));
    assert_eq!(once.try_lock(), None);
    once.init(2);
    assert_eq!(once.try_lock(), Some(OnceEntry::Occupied));
    assert_eq!(once.try_get(), Some(&2));
}

#[test]
fn poisoned_constructor_is_poisoned() {
    let once: CellOnce<u32> = Once::poisoned();
    assert!(matches!(once.try_get_checked(), Err(PoisonError)));
}

#[test]
fn clone_snapshots_the_slot() {
    let committed: CellOnce<u32> = Once::from_value(6);
    let mut copy = committed.clone();
    assert_eq!(copy.get(), Some(&6));

    let empty: CellOnce<u32> = Once::new();
    let mut copy = empty.clone();
    assert!(matches!(copy.try_get_checked(), Ok(None)));
    assert!(matches!(copy.try_lock_checked(), Ok(Some(OnceEntry::Vacant))));

    // A writer-held slot clones empty: the clone owes nothing to the
    // original's pending initialization.
    let mut held: CellOnce<u32> = Once::new();
    assert!(matches!(held.try_lock_checked(), Ok(Some(OnceEntry::Vacant))));
    let copy = held.clone();
    assert!(matches!(copy.try_get_checked(), Ok(None)));

    let poisoned: CellOnce<u32> = Once::poisoned();
    let copy = poisoned.clone();
    assert!(matches!(copy.try_get_checked(), Err(PoisonError)));
}

#[test]
fn lazy_forces_once() {
    let mut runs = 0;
    let mut lazy: Lazy<RawOnceCell, u32, _> = Lazy::new(|| {
        runs += 1;
        12
    });
    assert_eq!(*lazy.get(), 12);
    assert_eq!(*lazy.get(), 12);
    drop(lazy);
    assert_eq!(runs, 1);
}
