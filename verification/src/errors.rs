//! Error taxonomy of the gateway, its stable numeric codes, and the HTTP
//! mapping of each failure class.

use vstd::prelude::*;

verus! {

/// Stable machine-readable error codes carried in error bodies.
#[derive(Debug, Clone, Copy, PartialEq, Eq, Structural)]
pub enum ErrorCode {
    ConfigInvalid,
    RedisError,
    PluginLoadFailed,
    PluginExecutionFailed,
    NetworkTimeout,
    Unknown,
}

impl ErrorCode {
    /// The numeric wire value of this code.
    pub fn value(&self) -> (r: u32)
        ensures
            r == code_value(*self),
    {
        match self {
            ErrorCode::ConfigInvalid => 1001,
            ErrorCode::RedisError => 2002,
            ErrorCode::PluginLoadFailed => 4001,
            ErrorCode::PluginExecutionFailed => 4002,
            ErrorCode::NetworkTimeout => 7001,
            ErrorCode::Unknown => 9999,
        }
    }
}

pub open spec fn code_value(c: ErrorCode) -> u32 {
    match c {
        ErrorCode::ConfigInvalid => 1001,
        ErrorCode::RedisError => 2002,
        ErrorCode::PluginLoadFailed => 4001,
        ErrorCode::PluginExecutionFailed => 4002,
        ErrorCode::NetworkTimeout => 7001,
        ErrorCode::Unknown => 9999,
    }
}

/// Every failure a tool execution can surface.
///
/// `NotFound` and `ProtocolViolation` are permanent for the call;
/// `BackendUnreachable` and `Timeout` are retryable by the caller (the
/// gateway itself never retries).
#[derive(Debug)]
pub enum GatewayError {
    /// Unknown tool name for the caller's scope and the global scope.
    NotFound { detail: String },
    /// Network or process-spawn failure before the backend answered.
    BackendUnreachable { detail: String },
    /// The backend returned a well-formed failure: a non-2xx status with a
    /// body, or a component's error variant (then without a status).
    BackendRejected { status: Option<u16>, body: String },
    /// The backend's response could not be decoded per its ABI contract:
    /// null pointer, missing export, malformed packed return value.
    ProtocolViolation { detail: String },
    /// The backend did not answer in time.
    Timeout { detail: String },
    /// The persistent store could not be written or read.
    StoreUnavailable { detail: String },
    /// Invalid startup configuration, such as strict signature verification
    /// without a verification key.
    ConfigurationError { detail: String },
}

/// The HTTP status each failure class maps to: not-found 404, unreachable
/// or rejected 502, timeout 504, protocol violation 502, internal 500.
pub open spec fn http_status_of(e: GatewayError) -> u16 {
    match e {
        GatewayError::NotFound { .. } => 404,
        GatewayError::BackendUnreachable { .. } => 502,
        GatewayError::BackendRejected { .. } => 502,
        GatewayError::ProtocolViolation { .. } => 502,
        GatewayError::Timeout { .. } => 504,
        GatewayError::StoreUnavailable { .. } => 500,
        GatewayError::ConfigurationError { .. } => 500,
    }
}

/// Whether the caller may usefully retry the same call.
pub open spec fn is_retryable(e: GatewayError) -> bool {
    match e {
        GatewayError::BackendUnreachable { .. } => true,
        GatewayError::Timeout { .. } => true,
        GatewayError::StoreUnavailable { .. } => true,
        _ => false,
    }
}

/// The numeric code reported for each failure class.
pub open spec fn code_of(e: GatewayError) -> ErrorCode {
    match e {
        GatewayError::NotFound { .. } => ErrorCode::PluginExecutionFailed,
        GatewayError::BackendUnreachable { .. } => ErrorCode::PluginExecutionFailed,
        GatewayError::BackendRejected { .. } => ErrorCode::PluginExecutionFailed,
        GatewayError::ProtocolViolation { .. } => ErrorCode::PluginExecutionFailed,
        GatewayError::Timeout { .. } => ErrorCode::NetworkTimeout,
        GatewayError::StoreUnavailable { .. } => ErrorCode::RedisError,
        GatewayError::ConfigurationError { .. } => ErrorCode::ConfigInvalid,
    }
}

impl GatewayError {
    pub fn http_status(&self) -> (r: u16)
        ensures
            r == http_status_of(*self),
    {
        match self {
            GatewayError::NotFound { .. } => 404,
            GatewayError::BackendUnreachable { .. } => 502,
            GatewayError::BackendRejected { .. } => 502,
            GatewayError::ProtocolViolation { .. } => 502,
            GatewayError::Timeout { .. } => 504,
            GatewayError::StoreUnavailable { .. } => 500,
            GatewayError::ConfigurationError { .. } => 500,
        }
    }

    pub fn retryable(&self) -> (r: bool)
        ensures
            r == is_retryable(*self),
    {
        match self {
            GatewayError::BackendUnreachable { .. } => true,
            GatewayError::Timeout { .. } => true,
            GatewayError::StoreUnavailable { .. } => true,
            _ => false,
        }
    }

    pub fn code(&self) -> (r: ErrorCode)
        ensures
            r == code_of(*self),
    {
        match self {
            GatewayError::NotFound { .. } => ErrorCode::PluginExecutionFailed,
            GatewayError::BackendUnreachable { .. } => ErrorCode::PluginExecutionFailed,
            GatewayError::BackendRejected { .. } => ErrorCode::PluginExecutionFailed,
            GatewayError::ProtocolViolation { .. } => ErrorCode::PluginExecutionFailed,
            GatewayError::Timeout { .. } => ErrorCode::NetworkTimeout,
            GatewayError::StoreUnavailable { .. } => ErrorCode::RedisError,
            GatewayError::ConfigurationError { .. } => ErrorCode::ConfigInvalid,
        }
    }
}

/// Structured JSON error response body: message, stable numeric code, and
/// the timestamp the shell supplies. Callers never see a raw panic.
#[derive(Debug, Clone)]
pub struct ErrorBody {
    pub error: String,
    pub code: u32,
    pub timestamp: String,
}

/// Build the error body for a failure. The timestamp comes from the caller:
/// reading the clock is not this crate's business.
pub fn error_body(err: &GatewayError, message: String, timestamp: String) -> (r: ErrorBody)
    ensures
        r.error@ == message@,
        r.code == code_value(code_of(*err)),
        r.timestamp@ == timestamp@,
{
    ErrorBody { error: message, code: err.code().value(), timestamp }
}

} // verus!
