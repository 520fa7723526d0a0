use vstd::prelude::*;

verus! {

/// Errors that the library reports to its callers.
#[derive(Debug, Clone, Copy, PartialEq, Eq, Structural)]
pub enum AccelError {
    /// A driver call answered with a status other than success.
    Driver { code: u32 },
    /// A device index at or beyond the number of devices.
    DeviceNotFound { id: usize, count: usize },
}

/// The status code with which the driver reports success.
pub const SUCCESS: u32 = 0;

/// What a driver status code means to a caller.
pub open spec fn status_result(code: u32) -> Result<(), AccelError> {
    if code == SUCCESS {
        Ok(())
    } else {
        Err(AccelError::Driver { code })
    }
}

/// Turns the status code of a driver call into a result.
pub fn check(code: u32) -> (r: Result<(), AccelError>)
    ensures
        r == status_result(code),
{
    if code == SUCCESS {
        Ok(())
    } else {
        Err(AccelError::Driver { code })
    }
}

} // verus!
