//! Declarative construction of step pipelines and their lowering into the
//! request shapes of a remote execution service.
//!
//! The service is reached elsewhere; this crate decides what is sent and how
//! an answer is classified.

pub mod client;
pub mod create_pipeline;
pub mod dsl;
pub mod json;
pub mod laws;
pub mod lower;
pub mod run_pipeline;
pub mod step;

use crate::create_pipeline::create_pipeline as create;
use crate::dsl::Pipeline;
use crate::lower::{create_shape, run_shape};
use crate::run_pipeline::run_pipeline as run;
use vstd::prelude::*;
use vstd::string::StringExecFns;

verus! {

pub type JSON = crate::json::Json;

/// Declares reqwest's `Error`, carried opaquely in [`HeliosClientError::Request`].
#[verifier::external_type_specification]
#[verifier::external_body]
pub struct ExReqwestError(reqwest::Error);

/// Declares graphql_client's `Error`, one entry of an answer's error list,
/// carried opaquely in [`HeliosClientError::GraphQL`].
#[verifier::external_type_specification]
#[verifier::external_body]
pub struct ExGraphQLError(graphql_client::Error);

/// Declares serde_json's `Error`, carried opaquely in
/// [`HeliosClientError::Deserialization`].
#[verifier::external_type_specification]
#[verifier::external_body]
pub struct ExSerdeJsonError(serde_json::Error);

/// Why a submission failed.
#[derive(Debug)]
pub enum HeliosClientError {
    /// The exchange with the service could not complete.
    Request(reqwest::Error),
    /// The service answered with errors.
    GraphQL(Vec<graphql_client::Error>),
    /// The answer did not have the expected shape.
    Deserialization(serde_json::Error),
    /// The service answered without errors and without data.
    NoData,
    InvalidResponseFormat,
    /// A refused submission, or a failed status, described in words.
    GenericError(String),
}

/// Refusal of a pipeline with a trigger on the run path.
pub open spec fn run_refusal() -> Seq<char> {
    "Pipelines with triggers must be created, not run directly."@
}

/// Refusal of a pipeline without a trigger on the registration path.
pub open spec fn create_refusal() -> Seq<char> {
    "Pipelines without triggers must be run directly, not created."@
}

/// The variables of a run request for `pipeline`. A pipeline with a trigger
/// is refused: it must be registered instead.
pub fn run_pipeline_variables(pipeline: Pipeline) -> (r: Result<run::Variables, HeliosClientError>)
    ensures
        pipeline.trigger is Some <==> r is Err,
        r matches Ok(v) ==> v.pipeline@ == run_shape(pipeline@),
        r matches Err(e) ==> (e matches HeliosClientError::GenericError(m) && m@ == run_refusal()),
{
    if pipeline.trigger.is_some() {
        return Err(
            HeliosClientError::GenericError(
                "Pipelines with triggers must be created, not run directly.".to_owned(),
            ),
        );
    }
    Ok(run::Variables { pipeline: run::RunPipelineInput::from_pipeline(pipeline) })
}

/// The variables of a registration request for `pipeline`. A pipeline
/// without a trigger is refused: it must be run instead.
pub fn create_pipeline_variables(pipeline: Pipeline) -> (r: Result<
    create::Variables,
    HeliosClientError,
>)
    ensures
        pipeline.trigger is None <==> r is Err,
        r matches Ok(v) ==> v.pipeline@ == create_shape(pipeline@),
        r matches Err(e) ==> (e matches HeliosClientError::GenericError(m) && m@ == create_refusal()),
{
    if pipeline.trigger.is_none() {
        return Err(
            HeliosClientError::GenericError(
                "Pipelines without triggers must be run directly, not created.".to_owned(),
            ),
        );
    }
    Ok(create::Variables { pipeline: create::CreatePipelineInput::from_pipeline(pipeline) })
}

/// What stands in for a failed status's body when it could not be read.
pub open spec fn unread_body() -> Seq<char> {
    "Failed to read error body"@
}

/// The error for an answer whose status is not a success: `status` is the
/// status as text, `body` the answer's body where it could be read.
pub fn http_status_error(status: &str, body: Option<String>) -> (r: HeliosClientError)
    ensures
        r matches HeliosClientError::GenericError(m) && m@ == "HTTP error: "@ + status@ + " - "@
            + match body {
            Some(b) => b@,
            None => unread_body(),
        },
{
    let text = match body {
        Some(b) => b,
        None => "Failed to read error body".to_owned(),
    };
    let mut m = String::from_str("HTTP error: ");
    m.append(status);
    m.append(" - ");
    m.append(text.as_str());
    HeliosClientError::GenericError(m)
}

/// The outcome of a well-formed answer: its errors if it has any, else its
/// data, else the lack of data.
pub fn graphql_result<D>(errors: Option<Vec<graphql_client::Error>>, data: Option<D>) -> (r: Result<
    D,
    HeliosClientError,
>)
    ensures
        match errors {
            Some(e) => r == Err::<D, HeliosClientError>(HeliosClientError::GraphQL(e)),
            None => match data {
                Some(d) => r == Ok::<D, HeliosClientError>(d),
                None => r == Err::<D, HeliosClientError>(HeliosClientError::NoData),
            },
        },
{
    match errors {
        Some(e) => Err(HeliosClientError::GraphQL(e)),
        None => match data {
            Some(d) => Ok(d),
            None => Err(HeliosClientError::NoData),
        },
    }
}

} // verus!
