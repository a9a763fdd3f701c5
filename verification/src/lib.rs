//! The decision core of a small HTTP API client.
//!
//! A client owns a base URL and a transport. It resolves endpoints against
//! the base, assembles request descriptors, and decides, from what the
//! transport reports, how a call ends. Sending bytes is left to the caller.

pub mod client;
pub mod dispatch;
pub mod errors;
pub mod headers;
pub mod request;
pub mod resolve;
pub mod status;
pub mod transport;

pub use client::ApiClient;
pub use dispatch::{Action, RequestState, TransportEvent};
pub use errors::{ApiClientError, TransportFailure};
pub use request::RequestDescriptor;
