//! Lowering a finished pipeline into the two request shapes.
use crate::create_pipeline::create_pipeline as create;
use crate::dsl::{Pipeline, PipelineModel};
use crate::run_pipeline::run_pipeline as run;
use crate::step::{ActionType, Step, StepModel};
use vstd::prelude::*;
use vstd::std_specs::convert::FromSpec;

verus! {

broadcast use vstd::std_specs::vec::group_vec_axioms;

// --- lowering into the request shapes ---

/// The wire name of each kind of step.
pub open spec fn kind_tag(k: ActionType) -> Seq<char> {
    match k {
        ActionType::Webhook => "WEBHOOK"@,
        ActionType::LlmWorkflow => "LLM_WORKFLOW"@,
        ActionType::Event => "EVENT"@,
        ActionType::NimbusContainer => "NIMBUS_CONTAINER"@,
        ActionType::Script => "SCRIPT"@,
    }
}

/// A step as a run request carries it: the id resolved, all else as it was.
pub open spec fn run_step_shape(s: StepModel) -> run::StepInputModel {
    run::StepInputModel {
        id: s.resolved_id(),
        name: s.name,
        key: s.key,
        tag: kind_tag(s.kind),
        data: s.data,
        target: s.target,
        depends_on: s.depends_on,
        expression: s.expression,
    }
}

/// A pipeline as a run request carries it.
pub open spec fn run_shape(p: PipelineModel) -> run::RunPipelineInputModel {
    run::RunPipelineInputModel {
        name: p.name,
        steps: p.steps.map_values(|s: StepModel| run_step_shape(s)),
        outputs: p.outputs,
    }
}

/// A step as a registration request carries it.
pub open spec fn create_step_shape(s: StepModel) -> create::StepInputModel {
    create::StepInputModel {
        name: s.name,
        key: s.key,
        tag: kind_tag(s.kind),
        data: s.data,
        target: s.target,
        depends_on: s.depends_on,
        expression: s.expression,
    }
}

/// A pipeline as a registration request carries it: without outputs, and
/// with the trigger `manual` where it has none.
pub open spec fn create_shape(p: PipelineModel) -> create::CreatePipelineInputModel {
    create::CreatePipelineInputModel {
        name: p.name,
        trigger: match p.trigger {
            Some(t) => t,
            None => "manual"@,
        },
        steps: p.steps.map_values(|s: StepModel| create_step_shape(s)),
    }
}

impl From<ActionType> for run::ActionType {
    fn from(a: ActionType) -> Self {
        match a {
            ActionType::Webhook => run::ActionType::WEBHOOK,
            ActionType::LlmWorkflow => run::ActionType::LLM_WORKFLOW,
            ActionType::Event => run::ActionType::EVENT,
            ActionType::NimbusContainer => run::ActionType::NIMBUS_CONTAINER,
            ActionType::Script => run::ActionType::SCRIPT,
        }
    }
}

impl vstd::std_specs::convert::FromSpecImpl<ActionType> for run::ActionType {
    open spec fn obeys_from_spec() -> bool {
        true
    }

    open spec fn from_spec(a: ActionType) -> Self {
        match a {
            ActionType::Webhook => run::ActionType::WEBHOOK,
            ActionType::LlmWorkflow => run::ActionType::LLM_WORKFLOW,
            ActionType::Event => run::ActionType::EVENT,
            ActionType::NimbusContainer => run::ActionType::NIMBUS_CONTAINER,
            ActionType::Script => run::ActionType::SCRIPT,
        }
    }
}

impl From<ActionType> for create::ActionType {
    fn from(a: ActionType) -> Self {
        match a {
            ActionType::Webhook => create::ActionType::WEBHOOK,
            ActionType::LlmWorkflow => create::ActionType::LLM_WORKFLOW,
            ActionType::Event => create::ActionType::EVENT,
            ActionType::NimbusContainer => create::ActionType::NIMBUS_CONTAINER,
            ActionType::Script => create::ActionType::SCRIPT,
        }
    }
}

impl vstd::std_specs::convert::FromSpecImpl<ActionType> for create::ActionType {
    open spec fn obeys_from_spec() -> bool {
        true
    }

    open spec fn from_spec(a: ActionType) -> Self {
        match a {
            ActionType::Webhook => create::ActionType::WEBHOOK,
            ActionType::LlmWorkflow => create::ActionType::LLM_WORKFLOW,
            ActionType::Event => create::ActionType::EVENT,
            ActionType::NimbusContainer => create::ActionType::NIMBUS_CONTAINER,
            ActionType::Script => create::ActionType::SCRIPT,
        }
    }
}

impl From<Step> for run::StepInput {
    fn from(s: Step) -> Self {
        let Step { id, name, key, type_, data, target, depends_on, expression } = s;
        let id = match id {
            Some(i) => i,
            None => name.clone(),
        };
        let tag = run::ActionType::from(type_);
        run::StepInput { id, name, key, type_: tag, data, target, depends_on, expression }
    }
}

impl vstd::std_specs::convert::FromSpecImpl<Step> for run::StepInput {
    open spec fn obeys_from_spec() -> bool {
        true
    }

    open spec fn from_spec(s: Step) -> Self {
        run::StepInput {
            id: match s.id {
                Some(i) => i,
                None => s.name,
            },
            name: s.name,
            key: s.key,
            type_: <run::ActionType as FromSpec<ActionType>>::from_spec(s.type_),
            data: s.data,
            target: s.target,
            depends_on: s.depends_on,
            expression: s.expression,
        }
    }
}

impl From<Step> for create::StepInput {
    fn from(s: Step) -> Self {
        let Step { id, name, key, type_, data, target, depends_on, expression } = s;
        let tag = create::ActionType::from(type_);
        create::StepInput { name, key, type_: tag, data, target, depends_on, expression }
    }
}

impl vstd::std_specs::convert::FromSpecImpl<Step> for create::StepInput {
    open spec fn obeys_from_spec() -> bool {
        true
    }

    open spec fn from_spec(s: Step) -> Self {
        create::StepInput {
            name: s.name,
            key: s.key,
            type_: <create::ActionType as FromSpec<ActionType>>::from_spec(s.type_),
            data: s.data,
            target: s.target,
            depends_on: s.depends_on,
            expression: s.expression,
        }
    }
}

impl run::RunPipelineInput {
    /// The pipeline as a run request carries it.
    pub fn from_pipeline(p: Pipeline) -> (r: Self)
        ensures
            r@ == run_shape(p@),
    {
        let Pipeline { name, trigger, steps, outputs } = p;
        let ghost src = steps@;
        let mut out: Vec<run::StepInput> = Vec::new();
        for s in it: steps
            invariant
                it.seq() == src,
                out@.len() == it.index(),
                forall|j: int| 0 <= j < it.index() ==> #[trigger] out@[j]@ == run_step_shape(src[j]@),
        {
            out.push(run::StepInput::from(s));
        }
        let r = run::RunPipelineInput { name, steps: out, outputs };
        assert(r@.steps =~= run_shape(p@).steps);
        r
    }
}

impl create::CreatePipelineInput {
    /// The pipeline as a registration request carries it.
    pub fn from_pipeline(p: Pipeline) -> (r: Self)
        ensures
            r@ == create_shape(p@),
    {
        let Pipeline { name, trigger, steps, outputs } = p;
        let ghost src = steps@;
        let mut out: Vec<create::StepInput> = Vec::new();
        for s in it: steps
            invariant
                it.seq() == src,
                out@.len() == it.index(),
                forall|j: int| 0 <= j < it.index() ==> #[trigger] out@[j]@ == create_step_shape(src[j]@),
        {
            out.push(create::StepInput::from(s));
        }
        let trigger = match trigger {
            Some(t) => t,
            None => "manual".to_owned(),
        };
        let r = create::CreatePipelineInput { name, trigger, steps: out };
        assert(r@.steps =~= create_shape(p@).steps);
        r
    }
}

} // verus!
