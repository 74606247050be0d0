//! Errors of routed model calls.
use vstd::prelude::*;

use crate::providers::ProviderError;

verus! {

/// Why a routed call failed.
#[derive(Debug)]
pub enum RouterError {
    Provider(ProviderError),
    NoResponse,
    StreamError(String),
    ModelNotFound(String),
    UnsupportedCapability { model: String, capability: &'static str },
}

} // verus!
