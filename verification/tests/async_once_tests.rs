use safe_once::async_lazy::AsyncLazy;
use safe_once::async_once::{AsyncOnce, AsyncOnceEntry};
use safe_once::cell::async_fused_cell::AsyncRawFusedCell;

/// Stands in for a deferred computation: the output it will produce once
/// the embedding program drives it.
struct FakeTask {
    output: usize,
}

type CellAsyncOnce = AsyncOnce<AsyncRawFusedCell, FakeTask, usize>;

#[test]
fn test_async_once() {
    let mut foo: CellAsyncOnce = AsyncOnce::new();
    // First caller: finds the slot vacant and starts a computation
    // producing 2, which the embedding drives to completion.
    match foo.try_lock() {
        Some(AsyncOnceEntry::Vacant) => {},
        _ => panic!("fresh slot should be vacant"),
    }
    foo.start(FakeTask { output: 2 });
    let out = foo.future_mut().output;
    foo.complete(out);
    assert_eq!(*foo.commit(), 2);
    // Second caller arrives with a computation producing 3: the slot is
    // occupied, nothing new runs, and it reads 2.
    match foo.try_lock() {
        Some(AsyncOnceEntry::Occupied) => {},
        _ => panic!("committed slot should be occupied"),
    }
    assert_eq!(*foo.get().unwrap(), 2);
}

#[test]
fn concurrent_initializers_first_winner_decides() {
    let mut once: CellAsyncOnce = AsyncOnce::new();
    let mut second_ran = false;
    // Task A wins the write side and starts its computation producing 2.
    assert!(matches!(once.try_lock(), Some(AsyncOnceEntry::Vacant)));
    once.start(FakeTask { output: 2 });
    // Task B attempts concurrently: the write side is held, it must wait.
    assert!(once.try_lock().is_none());
    // A's computation completes and is committed.
    once.complete(2);
    assert_eq!(*once.commit(), 2);
    // B retries after waking: the slot is occupied, so its own initializer
    // producing 3 never starts and its side effects never execute.
    match once.try_lock() {
        Some(AsyncOnceEntry::Occupied) => {},
        Some(AsyncOnceEntry::Vacant) => {
            second_ran = true;
            once.start(FakeTask { output: 3 });
        },
        None => panic!("slot should have resolved"),
    }
    assert!(!second_ran);
    assert_eq!(*once.get().unwrap(), 2);
}

#[test]
fn async_once_resumes_a_started_thunk() {
    let mut once: CellAsyncOnce = AsyncOnce::new();
    assert!(matches!(once.try_lock(), Some(AsyncOnceEntry::Vacant)));
    once.start(FakeTask { output: 8 });
    // The starter is cancelled after starting; the slot keeps the running
    // computation. A later caller finds it occupied (started), resumes
    // driving it, and commits.
    once.complete(8);
    assert_eq!(*once.commit(), 8);
    assert_eq!(*once.get().unwrap(), 8);
}

#[test]
fn async_lazy_forces_and_caches() {
    let mut lazy: AsyncLazy<AsyncRawFusedCell, FakeTask, usize> = AsyncLazy::new(FakeTask {
        output: 4,
    });
    assert!(lazy.get().is_none());
    assert!(lazy.try_force());
    let out = lazy.future_mut().output;
    assert_eq!(*lazy.complete(out), 4);
    assert_eq!(lazy.get(), Some(&4));
    assert!(!lazy.try_force());
    assert_eq!(lazy.get(), Some(&4));
}
