//! The operation that registers a pipeline under a trigger.
use vstd::prelude::*;

pub mod create_pipeline;

verus! {

pub type JSON = crate::json::Json;

/// The operation that registers a pipeline under a trigger.
pub struct CreatePipeline;

} // verus!
