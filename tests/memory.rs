use accel::context::{ContextStack, Contexted};
use accel::device::Device;
use accel::error::AccelError;
use accel::memory::PageLockedMemory;

#[test]
fn page_locked() -> Result<(), AccelError> {
    let device = Device::nth(0, 1)?;
    let mut stack = ContextStack::new();
    let ctx = device.create_context(0x5000, &mut stack);
    let mem = PageLockedMemory::<i32>::new(&ctx, 12, 0x7f00_0000);
    assert_eq!(mem.len(), 12);
    assert_eq!(mem.byte_size(), 12 * 4 /* size of i32 */);
    Ok(())
}

#[test]
fn request_bytes_multiplies_by_element_size() {
    assert_eq!(PageLockedMemory::<i32>::request_bytes(12), Some(48));
    assert_eq!(PageLockedMemory::<u8>::request_bytes(5), Some(5));
    assert_eq!(PageLockedMemory::<u64>::request_bytes(usize::MAX), None);
}

#[test]
fn page_locked_keeps_address_and_context() {
    let mut stack = ContextStack::new();
    let ctx = Device::nth(0, 1).unwrap().create_context(0x5000, &mut stack);
    let mem = PageLockedMemory::<u64>::new(&ctx, 3, 0x1234);
    assert_eq!(mem.as_ptr(), 0x1234);
    assert_eq!(mem.byte_size(), 24);
    assert_eq!(mem.get_context().get_ptr(), 0x5000);
    let g = mem.guard_context(&mut stack);
    assert_eq!(stack.current(), Some(0x5000));
    g.release(&mut stack);
    assert_eq!(mem.sync_context(&mut stack, 0), Ok(()));
    assert_eq!(stack.depth(), 0);
}
