//! A verified Rust layer over the C ABI of the XNG separation kernel.
//!
//! The kernel is reached through plain numeric calls: return codes, raw microsecond timestamps,
//! validity codes and raw pointers with lengths. This crate holds everything that decides what
//! those numbers mean and what may be handed to the kernel: the error model, time conversion,
//! partition and vCPU types, and the typed sampling and queuing ports with their pre-flight size
//! checks. The calls themselves are made by a thin layer around this crate.
use vstd::prelude::*;

pub mod health;
pub mod partition;
pub mod port;
pub mod time;
pub mod vcpu;

verus! {

/// The numeric return code type of the kernel ABI (`xReturnCode_t`).
pub type ReturnCode = u32;

/// The request was performed.
pub const X_NO_ERROR: ReturnCode = 0;

/// System's operational status unaffected by request.
pub const X_NO_ACTION: ReturnCode = 1;

/// The request cannot be performed immediately.
pub const X_NOT_AVAILABLE: ReturnCode = 2;

/// Parameter specified in request invalid.
pub const X_INVALID_PARAM: ReturnCode = 3;

/// Parameter specified in request incompatible with current configuration.
pub const X_INVALID_CONFIG: ReturnCode = 4;

/// Request incompatible with mode of operation.
pub const X_INVALID_MODE: ReturnCode = 5;

/// The XNG error type
///
/// Every failable function in this crate returns a `Result<_, XngError>`. This enum represents
/// all error conditions which may occur during runtime.
#[derive(Debug, Clone, Copy, PartialEq, Eq, Structural)]
pub enum XngError {
    /// System's operational status unaffected by request.
    NoAction,
    /// The request cannot be performed immediately.
    NotAvailable,
    /// Parameter specified in request invalid.
    InvalidParam,
    /// Parameter specified in request incompatible with current configuration.
    InvalidConfig,
    /// Request incompatible with mode of operation.
    InvalidMode,
    /// The kernel returned a code which is not known to this crate
    UnknownReturnCode(ReturnCode),
    /// The buffer is too big
    BufTooBig {
        /// The size of the buffer
        buf_size: usize,
        /// The maximum allowed size
        max_allowed: usize,
    },
    /// The buffer is too small
    BufTooSmall {
        /// The size of the buffer
        buf_size: usize,
        /// The minimum required size
        min_required: usize,
    },
    /// A time error occurred
    TimeError(time::TimeError),
}

/// What a kernel return code means: success, one of the known errors, or an unknown code that is
/// kept as it is.
pub open spec fn status_result(code: ReturnCode) -> Result<(), XngError> {
    if code == X_NO_ERROR {
        Ok(())
    } else if code == X_NO_ACTION {
        Err(XngError::NoAction)
    } else if code == X_NOT_AVAILABLE {
        Err(XngError::NotAvailable)
    } else if code == X_INVALID_PARAM {
        Err(XngError::InvalidParam)
    } else if code == X_INVALID_CONFIG {
        Err(XngError::InvalidConfig)
    } else if code == X_INVALID_MODE {
        Err(XngError::InvalidMode)
    } else {
        Err(XngError::UnknownReturnCode(code))
    }
}

/// The error that a kernel error code maps to, an unknown code included.
pub open spec fn kernel_error(code: ReturnCode) -> XngError
    recommends
        code != X_NO_ERROR,
{
    status_result(code)->Err_0
}

/// Every return code has exactly one meaning: the success code alone means success, each known
/// error code its own variant, and every other code an `UnknownReturnCode` that carries the code
/// itself.
pub proof fn lemma_status_codes_total(code: ReturnCode)
    ensures
        status_result(code) is Ok <==> code == X_NO_ERROR,
        code == X_NO_ACTION ==> status_result(code) == Err::<(), XngError>(XngError::NoAction),
        code == X_NOT_AVAILABLE ==> status_result(code) == Err::<(), XngError>(
            XngError::NotAvailable,
        ),
        code == X_INVALID_PARAM ==> status_result(code) == Err::<(), XngError>(
            XngError::InvalidParam,
        ),
        code == X_INVALID_CONFIG ==> status_result(code) == Err::<(), XngError>(
            XngError::InvalidConfig,
        ),
        code == X_INVALID_MODE ==> status_result(code) == Err::<(), XngError>(
            XngError::InvalidMode,
        ),
        code > X_INVALID_MODE ==> status_result(code) == Err::<(), XngError>(
            XngError::UnknownReturnCode(code),
        ),
{
}

impl XngError {
    /// Converts a kernel return code into a `Result`.
    ///
    /// Every code maps to exactly one outcome: `Ok(())` for the success code, the matching variant
    /// for each known error code, and `UnknownReturnCode` carrying the code itself for any other.
    pub fn from(code: ReturnCode) -> (r: Result<(), XngError>)
        ensures
            r == status_result(code),
    {
        match code {
            X_NO_ERROR => Ok(()),
            X_NO_ACTION => Err(XngError::NoAction),
            X_NOT_AVAILABLE => Err(XngError::NotAvailable),
            X_INVALID_PARAM => Err(XngError::InvalidParam),
            X_INVALID_CONFIG => Err(XngError::InvalidConfig),
            X_INVALID_MODE => Err(XngError::InvalidMode),
            other => Err(XngError::UnknownReturnCode(other)),
        }
    }
}

/// An XNG error together with the source line at which it was raised
pub struct XngErrorTrace {
    error: XngError,
    line: u32,
}

impl XngErrorTrace {
    /// Attaches a source line to an error.
    pub fn new(error: XngError, line: u32) -> (r: XngErrorTrace)
        ensures
            r.error() == error,
            r.line() == line,
    {
        XngErrorTrace { error, line }
    }

    /// The error that was raised.
    pub closed spec fn error(&self) -> XngError {
        self.error
    }

    /// The line at which it was raised.
    pub closed spec fn line(&self) -> u32 {
        self.line
    }

    /// Drops the line and gives back the error.
    pub fn into_error(self) -> (r: XngError)
        ensures
            r == self.error(),
    {
        self.error
    }

    /// The line at which the error was raised.
    pub fn line_number(&self) -> (r: u32)
        ensures
            r == self.line(),
    {
        self.line
    }
}

} // verus!
