use safe_once::async_fused::{AsyncFused, AsyncFusedEntry};
use safe_once::cell::async_fused_cell::AsyncRawFusedCell;

type Fused<T> = AsyncFused<AsyncRawFusedCell, T>;

#[test]
fn test_fused() {
    let mut fused: Fused<usize> = AsyncFused::new(1usize);
    match fused.try_write() {
        Some(AsyncFusedEntry::Write) => {
            *fused.value_mut() += 1;
            fused.unlock();
        },
        _ => unreachable!(),
    }
    match fused.try_write() {
        Some(AsyncFusedEntry::Write) => {
            *fused.value_mut() += 1;
            fused.fuse();
        },
        _ => unreachable!(),
    }
    match fused.try_write() {
        Some(AsyncFusedEntry::Read) => {
            assert!(*fused.try_read().unwrap() == 3);
        },
        _ => unreachable!(),
    }
}

#[test]
fn fuse_publishes_and_unlock_retains() {
    let mut fused: Fused<u32> = AsyncFused::new(10);
    assert!(fused.try_read().is_none());
    assert!(matches!(fused.try_write(), Some(AsyncFusedEntry::Write)));
    fused.set_value(11);
    fused.unlock();
    assert!(fused.try_read().is_none());
    assert!(matches!(fused.try_write(), Some(AsyncFusedEntry::Write)));
    assert_eq!(*fused.value(), 11);
    let v = *fused.fuse();
    assert_eq!(v, 11);
    assert_eq!(fused.try_read(), Some(&11));
}

#[test]
fn or_fuse_applies_modify_and_freezes() {
    let mut fused: Fused<u32> = AsyncFused::new(1);
    let v = *fused.or_fuse(|x| x + 41);
    assert_eq!(v, 42);
    let v2 = *fused.or_fuse(|_x| unreachable!());
    assert_eq!(v2, 42);
}

#[test]
fn read_or_fuse_checked_reports_poison() {
    let mut fused: Fused<u32> = AsyncFused::new(5);
    assert!(matches!(fused.try_write(), Some(AsyncFusedEntry::Write)));
    fused.abandon_poison();
    assert!(fused.try_read_checked().is_err());
    assert!(fused.try_write_checked().is_err());
    assert!(fused.read_or_fuse_checked(|x| x).is_err());
    assert_eq!(fused.into_inner(), 5);
}

#[test]
fn preseeded_read_and_poisoned_fused() {
    let fused: Fused<u32> = AsyncFused::new_read(9);
    assert_eq!(fused.try_read(), Some(&9));

    let poisoned: Fused<u32> = AsyncFused::poisoned(4);
    assert!(poisoned.try_read_checked().is_err());
    assert_eq!(poisoned.into_inner(), 4);
}
