//! A retouch request as the user interface sends it, and the answer it gets.
use vstd::prelude::*;

use crate::params::ParamMap;

verus! {

/// A request to retouch the image at `input_path` with the strategy `strategy_id`,
/// with the parameter values the user set.
pub struct ApplyRetouchRequest<V> {
    pub input_path: String,
    pub strategy_id: String,
    pub params: ParamMap<V>,
}

/// The outcome of a retouch: where the result was saved, how long the adjustment
/// took, the parameter values it ran with, and what a model-based strategy reports.
pub struct ApplyRetouchResponse<V> {
    pub output_path: String,
    pub elapsed_ms: u128,
    pub applied_params: ParamMap<V>,
    pub model_info: Option<String>,
}

} // verus!
