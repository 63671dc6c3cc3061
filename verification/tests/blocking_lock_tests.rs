use safe_once::error::{LockError, PoisonError};
use safe_once::raw::RawOnceState;
use safe_once::sync::once_lock::{get_decision, lock_decision, snapshot_decision,
    try_lock_decision, GetDecision, LockDecision, LockStep, RawOnceLock, TryLockDecision,
    TryLockStep};
use safe_once::sync::state::State;
use safe_once::sync::thread_id::ThreadId;

#[test]
fn state_bits_roundtrip() {
    let s = State::new();
    assert!(!s.init() && !s.locked() && !s.parked() && !s.poison());
    assert_eq!(s.thread_id().0, 0);
    let s = s.with_init(true);
    assert!(s.init() && !s.poison() && !s.locked() && !s.parked());
    let s = s.with_poison(true).with_locked(true).with_parked(true);
    assert!(s.init() && s.poison() && s.locked() && s.parked());
    let s = s.with_init(false);
    assert!(!s.init() && s.poison() && s.locked() && s.parked());
    let id = ThreadId(0x40);
    let s = State::new().with_thread_id(id).with_locked(true);
    assert_eq!(s.thread_id().0, 0x40);
    assert!(s.locked() && !s.init());
    assert_eq!(s.with_parked(true).thread_id().0, 0x40);
    assert_eq!(State::from_word(s.to_word()), s);
}

#[test]
fn thread_id_packing() {
    assert_eq!(ThreadId::from_raw(0), None);
    assert_eq!(ThreadId::from_raw(5), None);
    assert_eq!(ThreadId::from_raw(usize::MAX), None);
    assert_eq!(ThreadId::from_raw(16), Some(ThreadId(16)));
    assert_eq!(ThreadId::from_raw(0x120), Some(ThreadId(0x120)));
    let top = usize::MAX & !0b1111;
    assert_eq!(ThreadId::from_raw(top), Some(ThreadId(top)));
    let s = State::new().with_thread_id(ThreadId(top)).with_locked(true).with_parked(true);
    assert_eq!(s.thread_id().0, top);
    assert!(s.locked() && s.parked() && !s.init() && !s.poison());
}

#[test]
fn snapshot_decision_classifies_exactly() {
    assert!(matches!(snapshot_decision(State::new()), Ok(RawOnceState::Vacant)));
    assert!(matches!(
        snapshot_decision(State::new().with_init(true)),
        Ok(RawOnceState::Occupied)
    ));
    assert!(matches!(
        snapshot_decision(State::new().with_poison(true)),
        Err(PoisonError)
    ));
    // A writer-held, unparked word still reads vacant.
    let held = State::new().with_thread_id(ThreadId(16)).with_locked(true);
    assert!(matches!(snapshot_decision(held), Ok(RawOnceState::Vacant)));
}

#[test]
fn decision_ladder_matches_word() {
    let t1 = ThreadId(16);
    let t2 = ThreadId(32);
    let free = State::new();
    assert!(matches!(try_lock_decision(free, t1), TryLockDecision::Acquire(_)));
    assert!(matches!(lock_decision(free, t1), LockDecision::Acquire(_)));
    assert!(matches!(get_decision(free, t1), GetDecision::Vacant));

    let locked1 = State::new().with_thread_id(t1).with_locked(true);
    assert!(matches!(lock_decision(locked1, t1), LockDecision::Cycle));
    assert!(matches!(get_decision(locked1, t1), GetDecision::Cycle));
    assert!(matches!(lock_decision(locked1, t2), LockDecision::SetParked(_)));
    assert!(matches!(try_lock_decision(locked1, t2), TryLockDecision::WouldBlock));

    let parked = locked1.with_parked(true);
    assert!(matches!(lock_decision(parked, t2), LockDecision::Park));

    assert!(matches!(lock_decision(State::new().with_init(true), t2), LockDecision::Occupied));
    assert!(matches!(lock_decision(State::new().with_poison(true), t2), LockDecision::Poisoned));
}

#[test]
fn recursive_lock_fails_with_cycle_and_completes() {
    let lock = RawOnceLock::uninit();
    let me = ThreadId(16);
    match lock.lock_checked_step(me) {
        LockStep::Done(Ok(RawOnceState::Vacant)) => {},
        _ => panic!("fresh lock should be acquired"),
    }
    match lock.lock_checked_step(me) {
        LockStep::Done(Err(LockError::CycleError)) => {},
        _ => panic!("reentry must fail with a cycle, not park"),
    }
    let must_unpark = lock.unlock_init();
    assert!(!must_unpark);
    assert!(matches!(lock.try_get_checked(), Ok(RawOnceState::Occupied)));
}

#[test]
fn contended_path_parks_and_sets_unpark_flag() {
    let lock = RawOnceLock::uninit();
    let a = ThreadId(16);
    let b = ThreadId(32);
    assert!(matches!(
        lock.try_lock_checked(a),
        TryLockStep::Done(Ok(Some(RawOnceState::Vacant)))
    ));
    assert!(matches!(lock.try_lock_checked(b), TryLockStep::Done(Ok(None))));
    assert!(matches!(lock.try_get_checked(), Ok(RawOnceState::Vacant)));
    match lock.lock_checked_step(b) {
        LockStep::MustPark => {},
        _ => panic!("waiter should be told to park"),
    }
    assert!(lock.park_validate());
    assert!(lock.unlock_init());
    assert!(!lock.park_validate());
    match lock.lock_checked_step(b) {
        LockStep::Done(Ok(RawOnceState::Occupied)) => {},
        _ => panic!("woken waiter should find the value"),
    }
}

#[test]
fn blocking_lock_poison_and_retry() {
    let lock = RawOnceLock::uninit();
    let a = ThreadId(16);
    match lock.lock_checked_step(a) {
        LockStep::Done(Ok(RawOnceState::Vacant)) => {},
        _ => panic!("fresh lock should be acquired"),
    }
    lock.unlock_poison();
    assert!(lock.try_get_checked().is_err());
    assert!(matches!(lock.lock_checked_step(a), LockStep::Done(Err(LockError::PoisonError))));

    let retry = RawOnceLock::uninit();
    match retry.lock_checked_step(a) {
        LockStep::Done(Ok(RawOnceState::Vacant)) => {},
        _ => panic!("fresh lock should be acquired"),
    }
    retry.unlock_nopoison();
    assert!(matches!(retry.try_get_checked(), Ok(RawOnceState::Vacant)));
    match retry.lock_checked_step(a) {
        LockStep::Done(Ok(RawOnceState::Vacant)) => {},
        _ => panic!("released lock should be acquirable again"),
    }
}

#[test]
fn preseeded_blocking_locks() {
    let done = RawOnceLock::initialized();
    assert!(matches!(done.try_get_checked(), Ok(RawOnceState::Occupied)));
    assert!(matches!(
        done.try_lock_checked(ThreadId(16)),
        TryLockStep::Done(Ok(Some(RawOnceState::Occupied)))
    ));
    let bad = RawOnceLock::poisoned();
    assert!(bad.try_get_checked().is_err());
}
