use futures::executor::block_on;
use safe_once::raw::RawOnceState;
use safe_once::sync::async_fused_lock::{after_permit_decision, resume_decision, tri_of_word,
    AsyncRawFusedLock, WriteAttempt, STATE_INIT, STATE_POISON, STATE_UNINIT};
use safe_once::sync::semaphore::TryAcquireOutcome;
use safe_once::sync::async_once_lock::AsyncRawOnceLock;

#[test]
fn tri_state_classification() {
    assert!(matches!(tri_of_word(STATE_UNINIT), Ok(RawOnceState::Vacant)));
    assert!(matches!(tri_of_word(STATE_INIT), Ok(RawOnceState::Occupied)));
    assert!(tri_of_word(STATE_POISON).is_err());
    assert!(tri_of_word(7).is_err());
}

#[test]
fn permit_decision_ladder() {
    assert!(matches!(
        after_permit_decision(TryAcquireOutcome::Acquired, Ok(RawOnceState::Vacant)),
        Ok(Some(RawOnceState::Vacant))
    ));
    assert!(matches!(
        after_permit_decision(TryAcquireOutcome::Closed, Ok(RawOnceState::Occupied)),
        Ok(Some(RawOnceState::Occupied))
    ));
    assert!(after_permit_decision(TryAcquireOutcome::Closed, Ok(RawOnceState::Vacant)).is_err());
    assert!(matches!(
        after_permit_decision(TryAcquireOutcome::NoPermits, Ok(RawOnceState::Occupied)),
        Ok(None)
    ));
    assert!(matches!(resume_decision(true, Ok(RawOnceState::Vacant)), Ok(RawOnceState::Vacant)));
    assert!(resume_decision(false, Ok(RawOnceState::Vacant)).is_err());
    assert!(matches!(
        resume_decision(false, Ok(RawOnceState::Occupied)),
        Ok(RawOnceState::Occupied)
    ));
}

#[test]
fn fused_lock_try_paths() {
    let l = AsyncRawFusedLock::unlocked();
    assert!(matches!(l.try_read_checked(), Ok(RawOnceState::Vacant)));
    assert!(matches!(l.try_write_checked(), Ok(Some(RawOnceState::Vacant))));
    assert!(matches!(l.try_write_checked(), Ok(None)));
    l.unlock();
    assert!(matches!(l.try_write_checked(), Ok(Some(RawOnceState::Vacant))));
    l.unlock_fuse();
    assert!(matches!(l.try_read_checked(), Ok(RawOnceState::Occupied)));
    assert!(matches!(l.try_write_checked(), Ok(Some(RawOnceState::Occupied))));
}

#[test]
fn fused_lock_poison_closes() {
    let l = AsyncRawFusedLock::unlocked();
    assert!(matches!(l.try_write_checked(), Ok(Some(RawOnceState::Vacant))));
    l.unlock_poison();
    assert!(l.try_read_checked().is_err());
    assert!(l.try_write_checked().is_err());
    assert!(matches!(l.write_attempt(), WriteAttempt::Ready(Err(_))));
}

#[test]
fn fused_lock_preseeded() {
    let done = AsyncRawFusedLock::read_only();
    assert!(matches!(done.try_read_checked(), Ok(RawOnceState::Occupied)));
    assert!(matches!(done.write_attempt(), WriteAttempt::Ready(Ok(RawOnceState::Occupied))));
    let bad = AsyncRawFusedLock::poisoned();
    assert!(bad.try_read_checked().is_err());
}

#[test]
fn once_lock_suspending_path() {
    let l = AsyncRawOnceLock::uninit();
    assert!(matches!(l.lock_attempt(), WriteAttempt::MustAcquire));
    let acquired = block_on(async {
        match l.semaphore().acquire().await {
            Ok(permit) => {
                permit.forget();
                true
            },
            Err(_) => false,
        }
    });
    assert!(acquired);
    assert!(matches!(l.lock_after_acquire(true), Ok(RawOnceState::Vacant)));
    l.unlock_init();
    assert!(matches!(l.lock_attempt(), WriteAttempt::Ready(Ok(RawOnceState::Occupied))));
    let acquired2 = block_on(async {
        match l.semaphore().acquire().await {
            Ok(permit) => {
                permit.forget();
                true
            },
            Err(_) => false,
        }
    });
    assert!(!acquired2);
    assert!(matches!(l.lock_after_acquire(false), Ok(RawOnceState::Occupied)));
    assert!(matches!(l.get_after_acquire(false), Ok(RawOnceState::Occupied)));
}

#[test]
fn concurrent_get_or_init_single_winner() {
    let rt = tokio::runtime::Builder::new_current_thread().build().unwrap();
    rt.block_on(async {
        let lock = std::sync::Arc::new(AsyncRawOnceLock::uninit());
        let value = std::sync::Arc::new(std::sync::Mutex::new(None::<usize>));
        let runs = std::sync::Arc::new(std::sync::atomic::AtomicUsize::new(0));
        let mut handles = Vec::new();
        for i in 0..4usize {
            let lock = lock.clone();
            let value = value.clone();
            let runs = runs.clone();
            handles.push(tokio::spawn(async move {
                let state = match lock.lock_attempt() {
                    WriteAttempt::Ready(r) => r.unwrap(),
                    WriteAttempt::MustAcquire => {
                        let acquired = match lock.semaphore().acquire().await {
                            Ok(permit) => {
                                permit.forget();
                                true
                            },
                            Err(_closed) => false,
                        };
                        lock.lock_after_acquire(acquired).unwrap()
                    },
                };
                match state {
                    RawOnceState::Vacant => {
                        runs.fetch_add(1, std::sync::atomic::Ordering::SeqCst);
                        tokio::task::yield_now().await;
                        *value.lock().unwrap() = Some(100 + i);
                        lock.unlock_init();
                        100 + i
                    },
                    RawOnceState::Occupied => value.lock().unwrap().unwrap(),
                }
            }));
        }
        let mut results = Vec::new();
        for h in handles {
            results.push(h.await.unwrap());
        }
        assert_eq!(runs.load(std::sync::atomic::Ordering::SeqCst), 1);
        assert!(results.iter().all(|r| *r == results[0]));
    });
}

#[test]
fn once_lock_try_and_retry() {
    let l = AsyncRawOnceLock::uninit();
    assert!(matches!(l.try_lock_checked(), Ok(Some(RawOnceState::Vacant))));
    assert!(matches!(l.try_lock_checked(), Ok(None)));
    l.unlock_nopoison();
    assert!(matches!(l.try_lock_checked(), Ok(Some(RawOnceState::Vacant))));
    l.unlock_poison();
    assert!(l.try_lock_checked().is_err());
    assert!(l.try_get_checked().is_err());
}
