use vstd::prelude::*;

verus! {

/// The kernel's error codes, as returned across the syscall boundary.
#[derive(Copy, Clone, Debug, PartialEq, Eq, Structural)]
pub enum ErrorCode {
    FAIL,
    BUSY,
    ALREADY,
    OFF,
    RESERVE,
    INVAL,
    SIZE,
    CANCEL,
    NOMEM,
    NOSUPPORT,
    NODEVICE,
    UNINSTALLED,
    NOACK,
}

/// The number each error code is sent to userspace as.
pub open spec fn spec_error_number(e: ErrorCode) -> usize {
    match e {
        ErrorCode::FAIL => 1,
        ErrorCode::BUSY => 2,
        ErrorCode::ALREADY => 3,
        ErrorCode::OFF => 4,
        ErrorCode::RESERVE => 5,
        ErrorCode::INVAL => 6,
        ErrorCode::SIZE => 7,
        ErrorCode::CANCEL => 8,
        ErrorCode::NOMEM => 9,
        ErrorCode::NOSUPPORT => 10,
        ErrorCode::NODEVICE => 11,
        ErrorCode::UNINSTALLED => 12,
        ErrorCode::NOACK => 13,
    }
}

impl ErrorCode {
    /// The number this error code is sent to userspace as.
    pub fn number(self) -> (n: usize)
        ensures
            n == spec_error_number(self),
            1 <= n <= 13,
    {
        match self {
            ErrorCode::FAIL => 1,
            ErrorCode::BUSY => 2,
            ErrorCode::ALREADY => 3,
            ErrorCode::OFF => 4,
            ErrorCode::RESERVE => 5,
            ErrorCode::INVAL => 6,
            ErrorCode::SIZE => 7,
            ErrorCode::CANCEL => 8,
            ErrorCode::NOMEM => 9,
            ErrorCode::NOSUPPORT => 10,
            ErrorCode::NODEVICE => 11,
            ErrorCode::UNINSTALLED => 12,
            ErrorCode::NOACK => 13,
        }
    }
}

/// The status word an upcall carries for a result: 0 for success, the
/// error's number otherwise.
pub open spec fn spec_status_code(r: Result<(), ErrorCode>) -> usize {
    match r {
        Ok(()) => 0,
        Err(e) => spec_error_number(e),
    }
}

/// The status word an upcall carries for a result.
pub fn into_statuscode(r: Result<(), ErrorCode>) -> (s: usize)
    ensures
        s == spec_status_code(r),
        (s == 0) == (r is Ok),
{
    match r {
        Ok(()) => 0,
        Err(e) => e.number(),
    }
}

/// What a `command` syscall answers.
#[derive(Copy, Clone, Debug, PartialEq, Eq, Structural)]
pub enum CommandReturn {
    Success,
    SuccessU32(u32),
    SuccessU32U32(u32, u32),
    Failure(ErrorCode),
}

impl CommandReturn {
    /// The answer for a plain `Result`, as `Result::into` gives it.
    pub fn from_result(r: Result<(), ErrorCode>) -> (c: CommandReturn)
        ensures
            c == (match r {
                Ok(()) => CommandReturn::Success,
                Err(e) => CommandReturn::Failure(e),
            }),
    {
        match r {
            Ok(()) => CommandReturn::Success,
            Err(e) => CommandReturn::Failure(e),
        }
    }
}

} // verus!
