//! Model-call building blocks: domain types, wire mappings, SSE framing and routing.

pub mod agent;
pub mod capability;
pub mod conversation;
pub mod endpoints;
pub mod json;
pub mod message;
pub mod models;
pub mod protocols;
pub mod providers;
pub mod router;
pub mod text;
pub mod transport;
pub mod usage;

pub use message::{Message, MessageRole};
pub use usage::Usage;
