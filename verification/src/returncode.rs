//! Standard return type for invoking operations, returning success or an
//! error code.

use vstd::prelude::*;

verus! {

/// Standard return errors in Tock.
#[derive(Clone, Copy, Debug, PartialEq, Eq, Structural)]
pub enum ReturnCode {
    /// Success value must be positive
    SuccessWithValue { value: usize },
    /// Operation completed successfully
    SUCCESS,
    /// Generic failure condition
    FAIL,
    /// Underlying system is busy; retry
    EBUSY,
    /// The state requested is already set
    EALREADY,
    /// The component is powered down
    EOFF,
    /// Reservation required before use
    ERESERVE,
    /// An invalid parameter was passed
    EINVAL,
    /// Parameter passed was too large
    ESIZE,
    /// Operation cancelled by a call
    ECANCEL,
    /// Memory required not available
    ENOMEM,
    /// Operation or command is unsupported
    ENOSUPPORT,
    /// Device does not exist
    ENODEVICE,
    /// Device is not physically installed
    EUNINSTALLED,
    /// Packet transmission not acknowledged
    ENOACK,
}

/// The number a return code is reported to a process as: the value itself
/// for `SuccessWithValue`, 0 for `SUCCESS`, and -1 to -13 for the errors in
/// their order of declaration.
pub open spec fn return_code_value(rc: ReturnCode) -> int {
    match rc {
        ReturnCode::SuccessWithValue { value } => value as isize as int,
        ReturnCode::SUCCESS => 0,
        ReturnCode::FAIL => -1,
        ReturnCode::EBUSY => -2,
        ReturnCode::EALREADY => -3,
        ReturnCode::EOFF => -4,
        ReturnCode::ERESERVE => -5,
        ReturnCode::EINVAL => -6,
        ReturnCode::ESIZE => -7,
        ReturnCode::ECANCEL => -8,
        ReturnCode::ENOMEM => -9,
        ReturnCode::ENOSUPPORT => -10,
        ReturnCode::ENODEVICE => -11,
        ReturnCode::EUNINSTALLED => -12,
        ReturnCode::ENOACK => -13,
    }
}

/// Whether a return code is one of the errors (neither `SUCCESS` nor a
/// success with a value).
pub open spec fn is_error(rc: ReturnCode) -> bool {
    !(rc is SuccessWithValue) && !(rc is SUCCESS)
}

/// Every error is reported to a process as a number from -1 to -13, and
/// no two errors share a number, so the process can tell from the number
/// which error it got. Success is reported as 0, and a success with a
/// value that fits in `isize` as that value.
pub proof fn law_return_code_numbers_tell_codes_apart(a: ReturnCode, b: ReturnCode)
    ensures
        is_error(a) ==> -13 <= return_code_value(a) <= -1,
        is_error(a) && is_error(b) && return_code_value(a) == return_code_value(b) ==> a == b,
        a == ReturnCode::SUCCESS ==> return_code_value(a) == 0,
        a is SuccessWithValue && a->value <= isize::MAX ==> return_code_value(a) == a->value,
{
}

/// The number each error is reported as.
pub proof fn law_error_numbers()
    ensures
        return_code_value(ReturnCode::FAIL) == -1,
        return_code_value(ReturnCode::EBUSY) == -2,
        return_code_value(ReturnCode::EALREADY) == -3,
        return_code_value(ReturnCode::EOFF) == -4,
        return_code_value(ReturnCode::ERESERVE) == -5,
        return_code_value(ReturnCode::EINVAL) == -6,
        return_code_value(ReturnCode::ESIZE) == -7,
        return_code_value(ReturnCode::ECANCEL) == -8,
        return_code_value(ReturnCode::ENOMEM) == -9,
        return_code_value(ReturnCode::ENOSUPPORT) == -10,
        return_code_value(ReturnCode::ENODEVICE) == -11,
        return_code_value(ReturnCode::EUNINSTALLED) == -12,
        return_code_value(ReturnCode::ENOACK) == -13,
{
}

impl From<ReturnCode> for isize {
    fn from(code: ReturnCode) -> (r: isize)
        ensures
            r == return_code_value(code),
    {
        match code {
            ReturnCode::SuccessWithValue { value } => value as isize,
            ReturnCode::SUCCESS => 0,
            ReturnCode::FAIL => -1,
            ReturnCode::EBUSY => -2,
            ReturnCode::EALREADY => -3,
            ReturnCode::EOFF => -4,
            ReturnCode::ERESERVE => -5,
            ReturnCode::EINVAL => -6,
            ReturnCode::ESIZE => -7,
            ReturnCode::ECANCEL => -8,
            ReturnCode::ENOMEM => -9,
            ReturnCode::ENOSUPPORT => -10,
            ReturnCode::ENODEVICE => -11,
            ReturnCode::EUNINSTALLED => -12,
            ReturnCode::ENOACK => -13,
        }
    }
}

impl vstd::std_specs::convert::FromSpecImpl<ReturnCode> for isize {
    open spec fn obeys_from_spec() -> bool {
        true
    }

    open spec fn from_spec(v: ReturnCode) -> isize {
        return_code_value(v) as isize
    }
}

impl From<ReturnCode> for usize {
    fn from(code: ReturnCode) -> (r: usize)
        ensures
            r == return_code_value(code) as isize as usize,
    {
        let v: isize = isize::from(code);
        v as usize
    }
}

impl vstd::std_specs::convert::FromSpecImpl<ReturnCode> for usize {
    open spec fn obeys_from_spec() -> bool {
        true
    }

    open spec fn from_spec(v: ReturnCode) -> usize {
        return_code_value(v) as isize as usize
    }
}

} // verus!
