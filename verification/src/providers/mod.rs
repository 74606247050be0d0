//! Vendor-side logic that does not need a connection: SSE framing, error
//! responses, authentication headers and URLs.

pub mod error;
pub mod headers;
pub mod sse;
pub mod sse_laws;
pub mod url;

pub use error::{parse_api_error, ProviderError};
