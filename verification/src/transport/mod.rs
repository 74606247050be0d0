//! Transport layer logic: what a response status means, and the error an
//! unsuccessful response becomes.

pub mod error;

pub use error::{api_error, extract_error_message, is_success_status, TransportError};
