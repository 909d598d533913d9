//! The operation that runs a pipeline at once.
use vstd::prelude::*;

pub mod run_pipeline;

verus! {

pub type JSON = crate::json::Json;

/// The operation that runs a pipeline at once.
pub struct RunPipeline;

} // verus!
