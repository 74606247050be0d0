//! Errors of model calls.
use vstd::prelude::*;

use crate::providers::error::ProviderError;

verus! {

/// Why a model call failed.
///
/// The first three variants come from capability implementations;
/// `ModelNotFound` only from a router, when no implementation of the
/// capability is registered under the model name.
#[derive(Debug)]
pub enum ModelError {
    Provider(ProviderError),
    NoResponse,
    StreamError(String),
    ModelNotFound { model: String, capability: &'static str },
}

} // verus!
