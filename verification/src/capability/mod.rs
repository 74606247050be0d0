//! Capability layer: the domain requests and responses that callers see.
//!
//! No wire structure, endpoint path or HTTP notion appears here.

pub mod audio;
pub mod chat;
pub mod error;
pub mod image;

pub use audio::{GenAudioRequest, GenAudioResponse};
pub use chat::{ChatChunk, ChatRequest, Reasoning};
pub use error::ModelError;
pub use image::{GenImgRequest, GenImgResponse};
