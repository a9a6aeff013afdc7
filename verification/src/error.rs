//! The statuses that cross the system-call boundary.

use vstd::prelude::*;

verus! {

/// Why a process's storage record could not be entered.
#[derive(Clone, Copy, Debug, PartialEq, Eq, Structural)]
pub enum GrantError {
    /// The identity names no live process.
    NoSuchProcess,
    /// The record does not exist yet and there is no room left to create it.
    OutOfMemory,
    /// The record is already entered. Entering borrows the table
    /// exclusively, so the table itself never reports this.
    AlreadyInUse,
}

/// The failure statuses that a caller can receive.
#[derive(Clone, Copy, Debug, PartialEq, Eq, Structural)]
pub enum ErrorCode {
    /// A failure with no status of its own.
    Fail,
    /// The command number or the allow index is not one the driver knows.
    NotSupported,
    /// The registered buffer is longer than the staging buffer.
    SizeError,
    /// The registered bytes are not UTF-8 text.
    InvalidEncoding,
    /// The calling identity names no live process.
    NoSuchProcess,
    /// The process's storage record could not be created.
    OutOfMemory,
}

impl ErrorCode {
    /// The status under which a grant failure is reported to a caller.
    pub open spec fn of_grant(err: GrantError) -> ErrorCode {
        match err {
            GrantError::NoSuchProcess => ErrorCode::NoSuchProcess,
            GrantError::OutOfMemory => ErrorCode::OutOfMemory,
            GrantError::AlreadyInUse => ErrorCode::Fail,
        }
    }
}

impl From<GrantError> for ErrorCode {
    fn from(err: GrantError) -> (code: ErrorCode) {
        match err {
            GrantError::NoSuchProcess => ErrorCode::NoSuchProcess,
            GrantError::OutOfMemory => ErrorCode::OutOfMemory,
            GrantError::AlreadyInUse => ErrorCode::Fail,
        }
    }
}

impl vstd::std_specs::convert::FromSpecImpl<GrantError> for ErrorCode {
    open spec fn obeys_from_spec() -> bool {
        true
    }

    open spec fn from_spec(err: GrantError) -> ErrorCode {
        ErrorCode::of_grant(err)
    }
}

} // verus!
