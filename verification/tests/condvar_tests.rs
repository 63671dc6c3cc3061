use safe_once::cell::async_fused_cell::{AsyncRawFusedCell, WriteStep};
use safe_once::cell::condvar::Condvar;
use safe_once::raw::{AsyncRawFused, RawOnceState};

#[test]
fn wake_order_is_fifo() {
    let mut cv = Condvar::new();
    let a = cv.wait_start();
    let b = cv.wait_start();
    let c = cv.wait_start();
    assert_eq!(cv.len(), 3);
    assert_eq!(cv.notify(), Some(a));
    let ga = cv.poll_wait(a).expect("a was notified");
    ga.consume();
    assert!(cv.poll_wait(c).is_none());
    assert_eq!(cv.notify(), Some(b));
    let gb = cv.poll_wait(b).expect("b was notified");
    assert_eq!(gb.release(&mut cv), Some(c));
    let gc = cv.poll_wait(c).expect("c was notified");
    gc.consume();
    assert_eq!(cv.len(), 0);
    assert_eq!(cv.notify(), None);
}

#[test]
fn cancel_running_waiter_unlinks() {
    let mut cv = Condvar::new();
    let a = cv.wait_start();
    let b = cv.wait_start();
    assert_eq!(cv.cancel_wait(a), None);
    assert_eq!(cv.len(), 1);
    assert_eq!(cv.notify(), Some(b));
}

#[test]
fn cancel_notified_waiter_passes_wakeup_on() {
    let mut cv = Condvar::new();
    let a = cv.wait_start();
    let b = cv.wait_start();
    assert_eq!(cv.notify(), Some(a));
    assert_eq!(cv.cancel_wait(a), Some(b));
    assert!(cv.poll_wait(b).is_some());
    assert_eq!(cv.len(), 0);
}

#[test]
fn cooperative_write_waits_and_is_woken() {
    let mut cell = <AsyncRawFusedCell as AsyncRawFused>::unlocked();
    let mut cv = Condvar::new();
    match cell.write_step(&mut cv) {
        WriteStep::Ready(Ok(RawOnceState::Vacant)) => {},
        _ => panic!("first writer should win"),
    }
    let id = match cell.write_step(&mut cv) {
        WriteStep::Wait(id) => id,
        _ => panic!("second writer should wait"),
    };
    assert!(!cell.poll_writer(&mut cv, id));
    let woken = cell.unlock_and_notify(&mut cv);
    assert_eq!(woken, Some(id));
    assert!(cell.poll_writer(&mut cv, id));
    match cell.write_step(&mut cv) {
        WriteStep::Ready(Ok(RawOnceState::Vacant)) => {},
        _ => panic!("woken writer should win"),
    }
    let woken2 = cell.fuse_and_notify(&mut cv);
    assert_eq!(woken2, None);
    match cell.write_step(&mut cv) {
        WriteStep::Ready(Ok(RawOnceState::Occupied)) => {},
        _ => panic!("fused slot should read"),
    }
}

#[test]
fn cooperative_poison_refuses_later_writers() {
    let mut cell = <AsyncRawFusedCell as AsyncRawFused>::unlocked();
    let mut cv = Condvar::new();
    match cell.write_step(&mut cv) {
        WriteStep::Ready(Ok(RawOnceState::Vacant)) => {},
        _ => panic!("first writer should win"),
    }
    assert_eq!(cell.poison_and_notify(&mut cv), None);
    match cell.write_step(&mut cv) {
        WriteStep::Ready(Err(_)) => {},
        _ => panic!("poisoned slot should refuse"),
    }
}
