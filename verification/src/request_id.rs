//! The envelope that ties a response to the request it answers.

use vstd::prelude::*;
use crate::error::{result_of, RclReturnCode};

verus! {

/// The correlation envelope of one request.
///
/// The transport hands it out together with every request or response that is
/// taken from an endpoint. A service gives it back unchanged with its
/// response, so that the transport can route the response to the client that
/// asked.
#[derive(Clone, Copy, Debug, PartialEq, Eq)]
pub struct RequestId {
    /// Identity of the endpoint that wrote the request.
    pub writer_guid: [i8; 16],
    /// The number that the transport gave the request when it was sent.
    pub sequence_number: i64,
}

/// What a take amounts to that returned `code` and filled in `message` and
/// `request_id`: both together if the code reports success, the typed error
/// otherwise.
pub open spec fn taken_of<T>(code: i32, message: T, request_id: RequestId) -> Result<
    (T, RequestId),
    RclReturnCode,
> {
    match result_of(code) {
        Ok(_) => Ok((message, request_id)),
        Err(error) => Err(error),
    }
}

} // verus!
