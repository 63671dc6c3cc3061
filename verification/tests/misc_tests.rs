use safe_once::const_box::ConstBox;
use safe_once::error::{LockError, PoisonError};
use safe_once::mut_cell::MutCell;
use safe_once::thunk::{OptionThunk, Thunk};

#[test]
fn test_const_box() {
    let x: ConstBox<usize> = ConstBox::new(10);
    println!("{:?}", x);
}

#[test]
fn const_box_round_trip() {
    let x = ConstBox::new(10usize);
    assert_eq!(*x.get_ref(), 10);
    assert_eq!(x.into_inner(), 10);
}

#[test]
fn error_conversion_and_messages() {
    let e: LockError = LockError::from(PoisonError);
    assert_eq!(e, LockError::PoisonError);
    assert_eq!(PoisonError.message(), "Once is poisoned");
    assert_eq!(LockError::PoisonError.message(), "Once is poisoned");
    assert_eq!(LockError::CycleError.message(), "Cycle while initializing Once");
    assert_ne!(LockError::PoisonError, LockError::CycleError);
}

#[test]
fn mut_cell_round_trip() {
    let mut c = MutCell::new(3u32);
    assert_eq!(*c.get_ref(), 3);
    *c.get_mut() = 4;
    assert_eq!(c.into_inner(), 4);
    let from: MutCell<u32> = MutCell::from(9);
    assert_eq!(from.into_inner(), 9);
}

#[test]
fn option_thunk_transitions() {
    let mut t: OptionThunk<u32, &str> = OptionThunk::new();
    assert!(!t.started());
    assert_eq!(t.get(), None);
    t.start("work");
    assert!(t.started());
    assert_eq!(t.get(), None);
    assert_eq!(*t.future_mut(), "work");
    t.complete(6);
    assert!(t.started());
    assert_eq!(t.get(), Some(&6));

    let v: OptionThunk<u32, &str> = OptionThunk::new_value(5);
    assert!(v.started());
    assert_eq!(v.get(), Some(&5));

    let f: OptionThunk<u32, &str> = OptionThunk::new_future("later");
    assert!(f.started());
    assert_eq!(f.get(), None);
}

#[test]
fn thunk_transitions() {
    let mut t: Thunk<u32, &str> = Thunk::new("work");
    assert_eq!(t.get(), None);
    assert_eq!(*t.future_mut(), "work");
    t.complete(7);
    assert_eq!(t.get(), Some(&7));

    let v: Thunk<u32, &str> = Thunk::new_value(2);
    assert_eq!(v.get(), Some(&2));
}
