//! Error types shared by every operation of the library.

use vstd::prelude::*;

verus! {

/// The error taxonomy of the library: transport and FFI failures, encoding
/// failures, connection-state errors, authentication failures, business
/// errors carrying the vendor's numeric code, initialization failures,
/// timeouts, invalid parameters, memory errors and a catch-all.
#[derive(Debug, Clone)]
pub enum CtpError {
    FfiError(String),
    EncodingError(String),
    ConnectionError(String),
    AuthenticationError(String),
    BusinessError(i32, String),
    InitializationError(String),
    TimeoutError(String),
    InvalidParameterError(String),
    MemoryError(String),
    InvalidPath(String),
    Other(String),
}

/// Result type used throughout the library.
pub type CtpResult<T> = Result<T, CtpError>;

/// Wraps a C-string handling failure as an FFI error.
pub fn c_string_error(msg: &str) -> (r: CtpError)
    ensures
        r matches CtpError::FfiError(m) && m@ == msg@,
{
    CtpError::FfiError(msg.to_string())
}

/// Wraps an encoding failure.
pub fn encoding_error(msg: &str) -> (r: CtpError)
    ensures
        r matches CtpError::EncodingError(m) && m@ == msg@,
{
    CtpError::EncodingError(msg.to_string())
}

/// Wraps a connection failure.
pub fn connection_error(msg: &str) -> (r: CtpError)
    ensures
        r matches CtpError::ConnectionError(m) && m@ == msg@,
{
    CtpError::ConnectionError(msg.to_string())
}

/// Wraps a vendor business failure, keeping the numeric code so callers can
/// branch on domain semantics.
pub fn business_error(error_id: i32, error_msg: &str) -> (r: CtpError)
    ensures
        r matches CtpError::BusinessError(c, m) && c == error_id && m@ == error_msg@,
{
    CtpError::BusinessError(error_id, error_msg.to_string())
}

} // verus!
