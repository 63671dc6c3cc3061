use safe_once::cell::async_fused_cell::WriteStep;
use safe_once::cell::async_once_cell::AsyncRawOnceCell;
use safe_once::cell::condvar::Condvar;
use safe_once::raw::{RawOnce, RawOnceState};

#[test]
fn cooperative_once_lock_and_get_queues() {
    let mut cell = <AsyncRawOnceCell as RawOnce>::uninit();
    let mut lockers = Condvar::new();
    let mut getters = Condvar::new();
    // A reader of the untouched slot does not wait: it reads vacant.
    match cell.get_step(&mut getters) {
        WriteStep::Ready(Ok(RawOnceState::Vacant)) => {},
        _ => panic!("fresh slot should read vacant"),
    }
    // The first locker becomes the writer.
    match cell.lock_step(&mut lockers) {
        WriteStep::Ready(Ok(RawOnceState::Vacant)) => {},
        _ => panic!("first locker should win"),
    }
    // A second locker and a reader both wait while initialization runs.
    let locker_id = match cell.lock_step(&mut lockers) {
        WriteStep::Wait(id) => id,
        _ => panic!("second locker should wait"),
    };
    let getter_id = match cell.get_step(&mut getters) {
        WriteStep::Wait(id) => id,
        _ => panic!("reader should wait during initialization"),
    };
    assert!(!cell.poll_waiter(&mut lockers, locker_id));
    // The writer commits: both front waiters are woken.
    let (woken_locker, woken_getter) = cell.init_and_notify(&mut lockers, &mut getters);
    assert_eq!(woken_locker, Some(locker_id));
    assert_eq!(woken_getter, Some(getter_id));
    assert!(cell.poll_waiter(&mut lockers, locker_id));
    assert!(cell.poll_waiter(&mut getters, getter_id));
    match cell.lock_step(&mut lockers) {
        WriteStep::Ready(Ok(RawOnceState::Occupied)) => {},
        _ => panic!("woken locker should find the value"),
    }
    match cell.get_step(&mut getters) {
        WriteStep::Ready(Ok(RawOnceState::Occupied)) => {},
        _ => panic!("woken reader should find the value"),
    }
}

#[test]
fn cooperative_once_retry_and_poison() {
    let mut cell = <AsyncRawOnceCell as RawOnce>::uninit();
    let mut lockers = Condvar::new();
    let mut getters = Condvar::new();
    match cell.lock_step(&mut lockers) {
        WriteStep::Ready(Ok(RawOnceState::Vacant)) => {},
        _ => panic!("first locker should win"),
    }
    // The writer abandons with a retry: the slot is writable again.
    let (w1, w2) = cell.retry_and_notify(&mut lockers, &mut getters);
    assert_eq!(w1, None);
    assert_eq!(w2, None);
    match cell.lock_step(&mut lockers) {
        WriteStep::Ready(Ok(RawOnceState::Vacant)) => {},
        _ => panic!("released slot should be writable again"),
    }
    // This writer fails: the slot is poisoned for everyone.
    cell.poison_and_notify(&mut lockers, &mut getters);
    match cell.lock_step(&mut lockers) {
        WriteStep::Ready(Err(_)) => {},
        _ => panic!("poisoned slot should refuse lockers"),
    }
    match cell.get_step(&mut getters) {
        WriteStep::Ready(Err(_)) => {},
        _ => panic!("poisoned slot should refuse readers"),
    }
}
