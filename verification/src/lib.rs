//! Request/response correlation for clients and services that sit on top of an
//! asynchronous, topic-based transport.
//!
//! The transport itself is not part of this crate. Whoever drives an endpoint
//! performs the transport calls and hands their outcome to the functions here,
//! which decide what happens to the pending requests and to the handlers.

pub mod error;
pub mod future;
pub mod request_id;
pub mod sync;
pub mod topic;
pub mod client;
pub mod service;
pub mod laws;

pub use crate::client::{Client, PendingRequest};
pub use crate::error::{ClientErrorCode, RclReturnCode, ServiceErrorCode};
pub use crate::future::RclFuture;
pub use crate::request_id::RequestId;
pub use crate::service::Service;
pub use crate::sync::SharedFuture;
