//! System call interface for userspace applications.

use vstd::prelude::*;

verus! {

/// `Driver`s implement the three driver-specific system calls:
/// `subscribe`, `command` and `allow`.
pub trait Driver {
    /// Registers a callback for the subscription number; the default
    /// supports none.
    fn subscribe(&self, minor_num: usize, callback: Option<crate::callback::Callback>, app_id: crate::callback::AppId) -> (r: crate::returncode::ReturnCode)
        default_ensures
            r == crate::returncode::ReturnCode::ENOSUPPORT,
    {
        crate::returncode::ReturnCode::ENOSUPPORT
    }

    /// Performs an operation; the default supports none.
    fn command(&self, minor_num: usize, r2: usize, r3: usize, caller_id: crate::callback::AppId) -> (r: crate::returncode::ReturnCode)
        default_ensures
            r == crate::returncode::ReturnCode::ENOSUPPORT,
    {
        crate::returncode::ReturnCode::ENOSUPPORT
    }

    /// Shares a buffer of the process with the driver; the default
    /// supports none.
    fn allow(&self, app: crate::callback::AppId, minor_num: usize, slice: Option<crate::mem::AppSlice<crate::mem::Shared, u8>>) -> (r: crate::returncode::ReturnCode)
        default_ensures
            r == crate::returncode::ReturnCode::ENOSUPPORT,
    {
        crate::returncode::ReturnCode::ENOSUPPORT
    }
}

} // verus!
