//! Status codes returned synchronously by every entry point.

use vstd::prelude::*;

verus! {

/// Outcome of a request, reported to the immediate caller.
#[allow(non_camel_case_types)]
#[derive(Clone, Copy, Debug, PartialEq, Eq, Structural)]
pub enum ReturnCode {
    /// Accepted, and a value is handed back with the acceptance.
    SuccessWithValue { value: usize },
    /// Accepted; completion, if any, arrives later.
    SUCCESS,
    /// Generic failure.
    FAIL,
    /// The object already has work outstanding.
    EBUSY,
    /// The requested state is already in effect.
    EALREADY,
    /// The component is powered down.
    EOFF,
    /// A reservation is required before use.
    ERESERVE,
    /// A parameter is out of range.
    EINVAL,
    /// A parameter is too large.
    ESIZE,
    /// The operation was cancelled.
    ECANCEL,
    /// A buffer is too small or absent.
    ENOMEM,
    /// The width or mode is not implemented.
    ENOSUPPORT,
    /// The channel or device does not exist.
    ENODEVICE,
    /// The device is physically absent.
    EUNINSTALLED,
    /// The packet was not acknowledged.
    ENOACK,
}

impl ReturnCode {
    /// The signed number that stands for a code: the value itself for
    /// `SuccessWithValue`, zero for `SUCCESS`, and a fixed negative number
    /// for each failure.
    pub open spec fn spec_to_isize(self) -> int {
        match self {
            ReturnCode::SuccessWithValue { value } => value as isize as int,
            ReturnCode::SUCCESS => 0,
            ReturnCode::FAIL => -1,
            ReturnCode::EBUSY => -2,
            ReturnCode::EALREADY => -3,
            ReturnCode::EOFF => -4,
            ReturnCode::ERESERVE => -5,
            ReturnCode::EINVAL => -6,
            ReturnCode::ESIZE => -7,
            ReturnCode::ECANCEL => -8,
            ReturnCode::ENOMEM => -9,
            ReturnCode::ENOSUPPORT => -10,
            ReturnCode::ENODEVICE => -11,
            ReturnCode::EUNINSTALLED => -12,
            ReturnCode::ENOACK => -13,
        }
    }

    /// Whether the request was accepted.
    pub open spec fn spec_is_success(self) -> bool {
        self is SUCCESS || self is SuccessWithValue
    }

    /// Converts the code to its signed number.
    pub fn to_isize(self) -> (r: isize)
        ensures
            r as int == self.spec_to_isize(),
    {
        match self {
            ReturnCode::SuccessWithValue { value } => {
                #[verifier::truncate]
                (value as isize)
            },
            ReturnCode::SUCCESS => 0,
            ReturnCode::FAIL => -1,
            ReturnCode::EBUSY => -2,
            ReturnCode::EALREADY => -3,
            ReturnCode::EOFF => -4,
            ReturnCode::ERESERVE => -5,
            ReturnCode::EINVAL => -6,
            ReturnCode::ESIZE => -7,
            ReturnCode::ECANCEL => -8,
            ReturnCode::ENOMEM => -9,
            ReturnCode::ENOSUPPORT => -10,
            ReturnCode::ENODEVICE => -11,
            ReturnCode::EUNINSTALLED => -12,
            ReturnCode::ENOACK => -13,
        }
    }

    /// Converts the code to the unsigned word handed to a callback: the
    /// signed number reinterpreted in the machine's word size.
    pub fn to_usize(self) -> (r: usize)
        ensures
            r == self.spec_to_isize() as isize as usize,
    {
        let v: isize = self.to_isize();
        #[verifier::truncate]
        (v as usize)
    }

    /// Whether the request was accepted.
    pub fn is_success(self) -> (r: bool)
        ensures
            r == self.spec_is_success(),
    {
        match self {
            ReturnCode::SUCCESS => true,
            ReturnCode::SuccessWithValue { .. } => true,
            _ => false,
        }
    }
}

} // verus!
