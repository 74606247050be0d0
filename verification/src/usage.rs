//! Token usage reported by a model call.
use vstd::prelude::*;

verus! {

/// Token usage of one call. `total_tokens` is always present at this level.
#[derive(Debug, Clone, Copy, PartialEq, Eq, Structural)]
pub struct Usage {
    pub prompt_tokens: u32,
    pub completion_tokens: u32,
    pub total_tokens: u32,
    pub prompt_cache_hit_tokens: Option<u32>,
    pub prompt_cache_miss_tokens: Option<u32>,
}

impl Default for Usage {
    fn default() -> (usage: Self)
        ensures
            usage.prompt_tokens == 0,
            usage.completion_tokens == 0,
            usage.total_tokens == 0,
            usage.prompt_cache_hit_tokens is None,
            usage.prompt_cache_miss_tokens is None,
    {
        Usage {
            prompt_tokens: 0,
            completion_tokens: 0,
            total_tokens: 0,
            prompt_cache_hit_tokens: None,
            prompt_cache_miss_tokens: None,
        }
    }
}

} // verus!
