use std::rc::Rc;

use hana_vm::env::{Env, FrameError, NO_RETURN};
use hana_vm::value::NativeValue;

fn int_value(n: u64) -> NativeValue {
    NativeValue { tag: 1, data: n }
}

#[test]
fn new_frame_is_empty() {
    let e = Env::new(42, None, 3);
    assert_eq!(e.slots.len(), 0);
    assert_eq!(e.retip, 42);
    assert_eq!(e.nargs, 3);
    assert!(e.lexical_parent.is_none());
}

#[test]
fn slot_round_trip() {
    let mut e = Env::new(0, None, 0);
    e.reserve(4);
    e.set(2, int_value(7));
    assert_eq!(e.get(2), int_value(7));
    assert_eq!(e.get(1), NativeValue::nil());
    e.set(2, int_value(9));
    assert_eq!(e.get(2), int_value(9));
}

#[test]
fn reserve_fills_with_nil() {
    let mut e = Env::new(0, None, 0);
    e.reserve(5);
    assert_eq!(e.slots.len(), 5);
    for i in 0..5u16 {
        assert_eq!(e.get(i), NativeValue::nil());
    }
    e.set(0, int_value(1));
    e.reserve(7);
    assert_eq!(e.slots.len(), 7);
    assert_eq!(e.get(0), int_value(1));
    assert_eq!(e.get(6), NativeValue::nil());
}

#[test]
fn reserve_shrinks_to_exact_size() {
    let mut e = Env::new(0, None, 0);
    e.reserve(5);
    e.reserve(2);
    assert_eq!(e.slots.len(), 2);
}

#[test]
fn lexical_depth() {
    let mut f0 = Env::new(0, None, 0);
    f0.reserve(2);
    f0.set(1, int_value(100));
    let f0 = Rc::new(f0);
    let mut f1 = Env::new(0, Some(Rc::clone(&f0)), 0);
    f1.reserve(2);
    f1.set(1, int_value(200));
    let f1 = Rc::new(f1);
    let mut f2 = Env::new(0, Some(Rc::clone(&f1)), 0);
    f2.reserve(2);
    f2.set(1, int_value(300));
    assert_eq!(f2.get_up(1, 1), f1.get(1));
    assert_eq!(f2.get_up(2, 1), f0.get(1));
    assert_eq!(f2.get_up(1, 1), int_value(200));
    assert_eq!(f2.get_up(2, 1), int_value(100));
    assert_eq!(f2.get_up(2, 0), NativeValue::nil());
}

#[test]
fn checked_access_reports_errors() {
    let mut f0 = Env::new(0, None, 0);
    f0.reserve(1);
    let f0 = Rc::new(f0);
    let mut f1 = Env::new(0, Some(f0), 0);
    f1.reserve(2);
    assert_eq!(f1.get_checked(1), Ok(NativeValue::nil()));
    assert_eq!(f1.get_checked(2), Err(FrameError::OutOfBounds));
    assert_eq!(f1.set_checked(5, int_value(1)), Err(FrameError::OutOfBounds));
    assert_eq!(f1.set_checked(1, int_value(1)), Ok(()));
    assert_eq!(f1.get_checked(1), Ok(int_value(1)));
    assert_eq!(f1.get_up_checked(1, 0), Ok(NativeValue::nil()));
    assert_eq!(f1.get_up_checked(1, 1), Err(FrameError::OutOfBounds));
    assert_eq!(f1.get_up_checked(2, 0), Err(FrameError::InsufficientDepth));
    assert_eq!(f1.get_up_checked(0, 0), Err(FrameError::InsufficientDepth));
}

#[test]
fn copy_independence() {
    let parent = Rc::new(Env::new(0, None, 0));
    let mut f = Env::new(17, Some(Rc::clone(&parent)), 2);
    f.reserve(3);
    f.set(0, int_value(5));
    let mut c = Env::copy(&f);
    assert_eq!(c.nargs, 0);
    assert_eq!(c.retip, NO_RETURN);
    assert!(Rc::ptr_eq(c.lexical_parent.as_ref().unwrap(), &parent));
    assert_eq!(c.get(0), int_value(5));
    c.set(0, int_value(6));
    c.set(2, int_value(8));
    assert_eq!(f.get(0), int_value(5));
    assert_eq!(f.get(2), NativeValue::nil());
    assert_eq!(c.get(0), int_value(6));
}
