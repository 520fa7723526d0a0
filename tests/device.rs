use accel::context::ContextStack;
use accel::device::Device;
use accel::error::{check, AccelError};

#[test]
fn get_count() -> Result<(), AccelError> {
    let count = Device::get_count(0, 2)?;
    assert_eq!(count, 2);
    Ok(())
}

#[test]
fn get_zeroth() -> Result<(), AccelError> {
    Device::nth(0, 1)?;
    Ok(())
}

#[test]
fn out_of_range() -> Result<(), AccelError> {
    let count = Device::get_count(0, 1)?;
    assert!(Device::nth(129, count).is_err());
    Ok(())
}

#[test]
fn create() -> Result<(), AccelError> {
    let device = Device::nth(0, 1)?;
    let mut stack = ContextStack::new();
    let ctx = device.create_context(0x1000, &mut stack);
    assert_eq!(ctx.get_ptr(), 0x1000);
    Ok(())
}

#[test]
fn count_error_and_negative_count() {
    assert_eq!(Device::get_count(100, 3), Err(AccelError::Driver { code: 100 }));
    assert_eq!(Device::get_count(0, -1), Ok(0));
    assert_eq!(Device::get_count(0, 0), Ok(0));
}

#[test]
fn nth_carries_id_and_count() {
    assert_eq!(Device::nth(3, 3), Err(AccelError::DeviceNotFound { id: 3, count: 3 }));
    assert_eq!(Device::nth(0, 0), Err(AccelError::DeviceNotFound { id: 0, count: 0 }));
    assert_eq!(Device::nth(2, 3).unwrap().ordinal_of(), 2);
}

#[test]
fn nth_twice_gives_same_device() {
    let a = Device::nth(1, 2).unwrap();
    let b = Device::nth(1, 2).unwrap();
    assert_eq!(a, b);
    assert!(Device::nth(0, 2).unwrap() < a);
}

#[test]
fn status_codes() {
    assert_eq!(check(0), Ok(()));
    assert_eq!(check(700), Err(AccelError::Driver { code: 700 }));
}

#[test]
fn fresh_context_is_not_current() {
    let device = Device::nth(0, 1).unwrap();
    let mut stack = ContextStack::new();
    stack.push(0x10);
    let ctx = device.create_context(0x20, &mut stack);
    assert_eq!(ctx.get_ptr(), 0x20);
    assert_eq!(stack.depth(), 1);
    assert_eq!(stack.current(), Some(0x10));
    assert!(!stack.contains(0x20));
    stack.pop(0x10);
    assert_eq!(stack.current(), None);
}
