//! Errors reported by the native engine and by argument validation.

use vstd::prelude::*;

verus! {

/// Native return code of a successful operation.
pub const CODE_SUCCESS: i32 = 0;

/// Native return code of an operation given an invalid argument.
pub const CODE_INVALID: i32 = -1;

/// Native return code of an operation that failed inside the engine.
pub const CODE_FAILED: i32 = -2;

/// Native return code of a request for data that is not available yet.
pub const CODE_NOT_AVAILABLE: i32 = -3;

/// The closed set of failures this library reports.
#[derive(Clone, Copy, Debug, PartialEq, Eq, Structural)]
pub enum Error {
    /// Caller-supplied data was rejected (an embedded NUL byte, malformed input).
    InvalidArgument,
    /// The engine failed for an internal reason, including a failed creation.
    Failed,
    /// The requested data is not available (yet).
    NotAvailable,
}

/// Name kept for code written against the agent-only revision of this API.
pub type AgentError = Error;

pub type Result<T> = core::result::Result<T, Error>;

impl Error {
    /// Human-readable description of the error.
    pub open spec fn spec_message(self) -> Seq<char> {
        match self {
            Error::InvalidArgument => "invalid argument"@,
            Error::Failed => "failure"@,
            Error::NotAvailable => "not available"@,
        }
    }

    /// Human-readable description of the error.
    pub fn message(&self) -> (r: String)
        ensures
            r@ == self.spec_message(),
    {
        match self {
            Error::InvalidArgument => "invalid argument".to_owned(),
            Error::Failed => "failure".to_owned(),
            Error::NotAvailable => "not available".to_owned(),
        }
    }
}

/// Whether the native engine may return `code`: success or one of the
/// codes that stand for an [`Error`].
pub open spec fn spec_code_is_known(code: i32) -> bool {
    code == CODE_SUCCESS || code == CODE_INVALID || code == CODE_FAILED || code
        == CODE_NOT_AVAILABLE
}

/// The result that a known native return code stands for.
pub open spec fn spec_result_from_code(code: i32) -> Result<()> {
    if code == CODE_SUCCESS {
        Ok(())
    } else if code == CODE_INVALID {
        Err(Error::InvalidArgument)
    } else if code == CODE_FAILED {
        Err(Error::Failed)
    } else {
        Err(Error::NotAvailable)
    }
}

/// Executable test of [`spec_code_is_known`]; to be called on every native
/// return code before it is handed to [`result_from_code`].
pub fn code_is_known(code: i32) -> (r: bool)
    ensures
        r == spec_code_is_known(code),
{
    code == CODE_SUCCESS || code == CODE_INVALID || code == CODE_FAILED || code
        == CODE_NOT_AVAILABLE
}

/// Translates a native return code into a result.
///
/// An unknown code is a violation of the native contract and is excluded
/// by the precondition.
pub fn result_from_code(code: i32) -> (r: Result<()>)
    requires
        spec_code_is_known(code),
    ensures
        r == spec_result_from_code(code),
{
    if code == CODE_SUCCESS {
        Ok(())
    } else if code == CODE_INVALID {
        Err(Error::InvalidArgument)
    } else if code == CODE_FAILED {
        Err(Error::Failed)
    } else {
        Err(Error::NotAvailable)
    }
}

} // verus!
