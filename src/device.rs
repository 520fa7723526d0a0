//! Devices: enumeration by index, and the creation of contexts on them.
use vstd::prelude::*;

use crate::context::{Context, ContextStack};
use crate::error::{status_result, AccelError};

verus! {

/// The largest device ordinal that the driver can name (its ordinals are C `int`s).
pub const MAX_ORDINAL: usize = 0x7fff_ffff;

/// A physical device, identified by its ordinal. Devices compare by ordinal.
#[derive(Debug, Clone, Copy, PartialEq, Eq, Structural, PartialOrd)]
pub struct Device {
    device: i32,
}

/// What the driver's device count means: its status, and the count it wrote,
/// of which a negative value would mean that there are no devices.
pub open spec fn count_result(status: u32, raw: i32) -> Result<usize, AccelError> {
    match status_result(status) {
        Err(e) => Err(e),
        Ok(_) => Ok(if raw < 0 { 0usize } else { raw as usize }),
    }
}

impl Device {
    /// The ordinal of this device.
    pub closed spec fn ordinal(&self) -> int {
        self.device as int
    }

    /// The device of ordinal `id` among `count` devices, if there is one.
    pub closed spec fn nth_result(id: usize, count: usize) -> Result<Device, AccelError> {
        if id < count {
            Ok(Device { device: id as i32 })
        } else {
            Err(AccelError::DeviceNotFound { id, count })
        }
    }

    /// The number of devices, from the status and count that the driver gave.
    pub fn get_count(status: u32, raw: i32) -> (r: Result<usize, AccelError>)
        ensures
            r == count_result(status, raw),
            r is Ok ==> r->Ok_0 <= MAX_ORDINAL,
    {
        if status != crate::error::SUCCESS {
            Err(AccelError::Driver { code: status })
        } else if raw < 0 {
            Ok(0)
        } else {
            Ok(raw as usize)
        }
    }

    /// The device of ordinal `id`, where `count` devices are present.
    pub fn nth(id: usize, count: usize) -> (r: Result<Device, AccelError>)
        requires
            count <= MAX_ORDINAL + 1,
        ensures
            r == Self::nth_result(id, count),
            r is Ok <==> id < count,
            r is Ok ==> r->Ok_0.ordinal() == id,
            r is Err ==> r == Err::<Device, AccelError>(AccelError::DeviceNotFound { id, count }),
    {
        if id >= count {
            Err(AccelError::DeviceNotFound { id, count })
        } else {
            Ok(Device { device: id as i32 })
        }
    }

    /// The ordinal of this device.
    pub fn ordinal_of(&self) -> (r: i32)
        ensures
            r == self.ordinal(),
    {
        self.device
    }

    /// Takes ownership of `ptr`, the context that the driver just created on
    /// this device, and pops it, so that it starts out current on no thread.
    pub fn create_context(&self, ptr: u64, stack: &mut ContextStack) -> (r: Context)
        requires
            ptr != 0,
            !old(stack)@.contains(ptr),
        ensures
            r.handle() == ptr,
            final(stack)@ == old(stack)@,
            !final(stack)@.contains(ptr),
    {
        Context::create(ptr, stack)
    }
}

/// Every ordinal below the count names a device, and asking twice gives the
/// same device both times.
pub proof fn lemma_nth_in_range(id: usize, count: usize)
    requires
        id < count,
        count <= MAX_ORDINAL + 1,
    ensures
        Device::nth_result(id, count) is Ok,
        Device::nth_result(id, count)->Ok_0.ordinal() == id,
{
}

/// No ordinal at or beyond the count names a device; the error carries the
/// ordinal and the count.
pub proof fn lemma_nth_out_of_range(id: usize, count: usize)
    requires
        id >= count,
    ensures
        Device::nth_result(id, count) == Err::<Device, AccelError>(AccelError::DeviceNotFound { id, count }),
{
}

} // verus!
