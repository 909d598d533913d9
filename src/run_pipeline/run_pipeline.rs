//! The types of the operation's request and response.
use crate::dsl::texts;
use crate::step::text_opt;
use crate::json::{text_eq, JsonModel};
use vstd::prelude::*;

verus! {

pub type JSON = super::JSON;

pub const OPERATION_NAME: &'static str = "RunPipeline";

pub const QUERY: &'static str = r#"
    mutation RunPipeline($pipeline: RunPipelineInput!) {
        runPipeline(pipeline: $pipeline) {
            success
            message
            outputs {
                stepId
                resultJson
                error
            }
        }
    }"#;

/// A step's action as the wire names it. A name outside the known ones is
/// kept as it came.
#[allow(non_camel_case_types)]
#[derive(Debug, Clone, PartialEq, Eq)]
pub enum ActionType {
    ACTION_TYPE_UNSPECIFIED,
    WEBHOOK,
    LLM_WORKFLOW,
    EVENT,
    NIMBUS_CONTAINER,
    SCRIPT,
    Other(String),
}

/// Whether `t` names one of the known actions.
pub open spec fn is_known_tag(t: Seq<char>) -> bool {
    ||| t == "ACTION_TYPE_UNSPECIFIED"@
    ||| t == "WEBHOOK"@
    ||| t == "LLM_WORKFLOW"@
    ||| t == "EVENT"@
    ||| t == "NIMBUS_CONTAINER"@
    ||| t == "SCRIPT"@
}

impl ActionType {
    /// The name this action goes by on the wire.
    pub open spec fn tag(&self) -> Seq<char> {
        match self {
            ActionType::ACTION_TYPE_UNSPECIFIED => "ACTION_TYPE_UNSPECIFIED"@,
            ActionType::WEBHOOK => "WEBHOOK"@,
            ActionType::LLM_WORKFLOW => "LLM_WORKFLOW"@,
            ActionType::EVENT => "EVENT"@,
            ActionType::NIMBUS_CONTAINER => "NIMBUS_CONTAINER"@,
            ActionType::SCRIPT => "SCRIPT"@,
            ActionType::Other(s) => s@,
        }
    }

    pub fn as_str(&self) -> (r: &str)
        ensures
            r@ == self.tag(),
    {
        match self {
            ActionType::ACTION_TYPE_UNSPECIFIED => "ACTION_TYPE_UNSPECIFIED",
            ActionType::WEBHOOK => "WEBHOOK",
            ActionType::LLM_WORKFLOW => "LLM_WORKFLOW",
            ActionType::EVENT => "EVENT",
            ActionType::NIMBUS_CONTAINER => "NIMBUS_CONTAINER",
            ActionType::SCRIPT => "SCRIPT",
            ActionType::Other(s) => s.as_str(),
        }
    }

    /// The action named `s`; a name outside the known ones becomes `Other`.
    pub fn from_tag(s: &str) -> (r: ActionType)
        ensures
            r.tag() == s@,
            r is Other <==> !is_known_tag(s@),
    {
        proof {
        reveal_strlit("ACTION_TYPE_UNSPECIFIED");
        reveal_strlit("WEBHOOK");
        reveal_strlit("LLM_WORKFLOW");
        reveal_strlit("EVENT");
        reveal_strlit("NIMBUS_CONTAINER");
        reveal_strlit("SCRIPT");
        }
        if text_eq(s, "ACTION_TYPE_UNSPECIFIED") {
            return ActionType::ACTION_TYPE_UNSPECIFIED;
        }
        if text_eq(s, "WEBHOOK") {
            return ActionType::WEBHOOK;
        }
        if text_eq(s, "LLM_WORKFLOW") {
            return ActionType::LLM_WORKFLOW;
        }
        if text_eq(s, "EVENT") {
            return ActionType::EVENT;
        }
        if text_eq(s, "NIMBUS_CONTAINER") {
            return ActionType::NIMBUS_CONTAINER;
        }
        if text_eq(s, "SCRIPT") {
            return ActionType::SCRIPT;
        }
        ActionType::Other(s.to_owned())
    }
}

/// One step of a run request.
pub struct StepInput {
    pub id: String,
    pub name: String,
    pub key: String,
    pub type_: ActionType,
    pub data: JSON,
    pub target: Option<String>,
    pub depends_on: Option<String>,
    pub expression: Option<String>,
}

/// A [`StepInput`], as the model sees it.
pub struct StepInputModel {
    pub id: Seq<char>,
    pub name: Seq<char>,
    pub key: Seq<char>,
    pub tag: Seq<char>,
    pub data: JsonModel,
    pub target: Option<Seq<char>>,
    pub depends_on: Option<Seq<char>>,
    pub expression: Option<Seq<char>>,
}

impl View for StepInput {
    type V = StepInputModel;

    open spec fn view(&self) -> StepInputModel {
        StepInputModel {
            id: self.id@,
            name: self.name@,
            key: self.key@,
            tag: self.type_.tag(),
            data: self.data@,
            target: text_opt(self.target),
            depends_on: text_opt(self.depends_on),
            expression: text_opt(self.expression),
        }
    }
}

/// The pipeline of a run request.
pub struct RunPipelineInput {
    pub name: String,
    pub steps: Vec<StepInput>,
    pub outputs: Vec<String>,
}

/// A [`RunPipelineInput`], as the model sees it.
pub struct RunPipelineInputModel {
    pub name: Seq<char>,
    pub steps: Seq<StepInputModel>,
    pub outputs: Seq<Seq<char>>,
}

impl View for RunPipelineInput {
    type V = RunPipelineInputModel;

    open spec fn view(&self) -> RunPipelineInputModel {
        RunPipelineInputModel {
            name: self.name@,
            steps: Seq::new(self.steps@.len(), |i: int| self.steps@[i]@),
            outputs: texts(self.outputs@),
        }
    }
}

/// The variables of the run operation.
pub struct Variables {
    pub pipeline: RunPipelineInput,
}

/// The data of a run response.
pub struct ResponseData {
    pub run_pipeline: RunPipelineRunPipeline,
}

/// What the service reports of a run.
pub struct RunPipelineRunPipeline {
    pub success: bool,
    pub message: String,
    pub outputs: Vec<RunPipelineRunPipelineOutputs>,
}

/// The result of one step of a run.
pub struct RunPipelineRunPipelineOutputs {
    pub step_id: String,
    pub result_json: JSON,
    pub error: Option<String>,
}

} // verus!
