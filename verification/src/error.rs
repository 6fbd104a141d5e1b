//! Typed errors for the return codes of the transport.

use vstd::prelude::*;

verus! {

/// The return code with which the transport reports success.
pub const RCL_RET_OK: i32 = 0;

/// Unspecified failure.
pub const RCL_RET_ERROR: i32 = 1;

/// A timeout elapsed.
pub const RCL_RET_TIMEOUT: i32 = 2;

/// The operation is not supported.
pub const RCL_RET_UNSUPPORTED: i32 = 3;

/// Memory could not be allocated.
pub const RCL_RET_BAD_ALLOC: i32 = 10;

/// An argument was invalid.
pub const RCL_RET_INVALID_ARGUMENT: i32 = 11;

/// The client endpoint is invalid.
pub const RCL_RET_CLIENT_INVALID: i32 = 500;

/// No response could be taken from the client endpoint.
pub const RCL_RET_CLIENT_TAKE_FAILED: i32 = 501;

/// The service endpoint is invalid.
pub const RCL_RET_SERVICE_INVALID: i32 = 600;

/// No request could be taken from the service endpoint.
pub const RCL_RET_SERVICE_TAKE_FAILED: i32 = 601;

/// Failures that are specific to a client endpoint.
#[derive(Clone, Copy, Debug, PartialEq, Eq, Structural)]
pub enum ClientErrorCode {
    /// The client endpoint is invalid.
    ClientInvalid,
    /// The endpoint was signalled as ready, but held no response.
    ClientTakeFailed,
}

/// Failures that are specific to a service endpoint.
#[derive(Clone, Copy, Debug, PartialEq, Eq, Structural)]
pub enum ServiceErrorCode {
    /// The service endpoint is invalid.
    ServiceInvalid,
    /// The endpoint was signalled as ready, but held no request.
    ServiceTakeFailed,
}

/// A failure reported by the transport.
#[derive(Clone, Copy, Debug, PartialEq, Eq, Structural)]
pub enum RclReturnCode {
    /// Unspecified failure.
    Error,
    /// A timeout elapsed.
    Timeout,
    /// The operation is not supported.
    Unsupported,
    /// Memory could not be allocated.
    BadAlloc,
    /// An argument was invalid.
    InvalidArgument,
    /// A failure of a client endpoint.
    ClientError(ClientErrorCode),
    /// A failure of a service endpoint.
    ServiceError(ServiceErrorCode),
    /// A return code that this crate gives no name to.
    Unknown(i32),
}

/// The typed error that stands for a return code other than success.
pub open spec fn error_of(code: i32) -> RclReturnCode {
    if code == RCL_RET_ERROR {
        RclReturnCode::Error
    } else if code == RCL_RET_TIMEOUT {
        RclReturnCode::Timeout
    } else if code == RCL_RET_UNSUPPORTED {
        RclReturnCode::Unsupported
    } else if code == RCL_RET_BAD_ALLOC {
        RclReturnCode::BadAlloc
    } else if code == RCL_RET_INVALID_ARGUMENT {
        RclReturnCode::InvalidArgument
    } else if code == RCL_RET_CLIENT_INVALID {
        RclReturnCode::ClientError(ClientErrorCode::ClientInvalid)
    } else if code == RCL_RET_CLIENT_TAKE_FAILED {
        RclReturnCode::ClientError(ClientErrorCode::ClientTakeFailed)
    } else if code == RCL_RET_SERVICE_INVALID {
        RclReturnCode::ServiceError(ServiceErrorCode::ServiceInvalid)
    } else if code == RCL_RET_SERVICE_TAKE_FAILED {
        RclReturnCode::ServiceError(ServiceErrorCode::ServiceTakeFailed)
    } else {
        RclReturnCode::Unknown(code)
    }
}

/// What a transport call that returned `code` amounts to: success for
/// `RCL_RET_OK`, the typed error otherwise.
pub open spec fn result_of(code: i32) -> Result<(), RclReturnCode> {
    if code == RCL_RET_OK {
        Ok(())
    } else {
        Err(error_of(code))
    }
}

/// Turns the return code of a transport call into a `Result`.
pub fn to_result(code: i32) -> (res: Result<(), RclReturnCode>)
    ensures
        res == result_of(code),
{
    if code == RCL_RET_OK {
        Ok(())
    } else if code == RCL_RET_ERROR {
        Err(RclReturnCode::Error)
    } else if code == RCL_RET_TIMEOUT {
        Err(RclReturnCode::Timeout)
    } else if code == RCL_RET_UNSUPPORTED {
        Err(RclReturnCode::Unsupported)
    } else if code == RCL_RET_BAD_ALLOC {
        Err(RclReturnCode::BadAlloc)
    } else if code == RCL_RET_INVALID_ARGUMENT {
        Err(RclReturnCode::InvalidArgument)
    } else if code == RCL_RET_CLIENT_INVALID {
        Err(RclReturnCode::ClientError(ClientErrorCode::ClientInvalid))
    } else if code == RCL_RET_CLIENT_TAKE_FAILED {
        Err(RclReturnCode::ClientError(ClientErrorCode::ClientTakeFailed))
    } else if code == RCL_RET_SERVICE_INVALID {
        Err(RclReturnCode::ServiceError(ServiceErrorCode::ServiceInvalid))
    } else if code == RCL_RET_SERVICE_TAKE_FAILED {
        Err(RclReturnCode::ServiceError(ServiceErrorCode::ServiceTakeFailed))
    } else {
        Err(RclReturnCode::Unknown(code))
    }
}

impl RclReturnCode {
    /// Whether this error is the one that a take on a client endpoint gives
    /// when the endpoint was signalled as ready without holding a response.
    pub open spec fn is_client_take_failed(self) -> bool {
        self == RclReturnCode::ClientError(ClientErrorCode::ClientTakeFailed)
    }

    /// Whether this error is the one that a take on a service endpoint gives
    /// when the endpoint was signalled as ready without holding a request.
    pub open spec fn is_service_take_failed(self) -> bool {
        self == RclReturnCode::ServiceError(ServiceErrorCode::ServiceTakeFailed)
    }
}

} // verus!
