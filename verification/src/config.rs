//! Configuration consumed by modules around the core. Values are loaded
//! from the environment before they reach this crate and are treated as
//! opaque here.

use vstd::prelude::*;

verus! {

/// Config for the item analysis module: the endpoints, keys and model names
/// of the external AI providers that the (excluded) analysis module calls.
#[derive(Clone, Debug)]
pub struct ItemAnalysisConfig {
    pub anthropic_api_endpoint: String,
    pub anthropic_api_key: String,
    pub anthropic_model: String,
    pub anthropic_version: String,
    pub openai_api_endpoint: String,
    pub openai_api_key: String,
    pub openai_model: String,
}

} // verus!
