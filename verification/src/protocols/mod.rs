//! Protocol layer: mapping between wire structures and domain types.
//!
//! Only protocols live here. DeepSeek and OpenRouter chat and audio speak the
//! OpenAI-compatible protocol; only OpenRouter's image endpoint has its own.

pub mod openai;
pub mod openrouter;
