//! What holds of every sequence of builder calls, and of the lowering into
//! the request shapes.
use crate::create_pipeline::create_pipeline as create;
use crate::dsl::{BuilderModel, PipelineModel};
use crate::lower::{kind_tag, run_shape, run_step_shape};
use crate::step::{ActionType, Edit, StepModel};
use crate::run_pipeline::run_pipeline as run;
use vstd::prelude::*;
use vstd::std_specs::convert::FromSpec;

verus! {

/// One call a builder takes, as its contract describes it.
pub enum BuilderCall {
    /// `webhook`, `script`, `container` or `llm_workflow`, starting this step.
    Start(StepModel),
    /// A setter of the step under configuration.
    Configure(Edit),
    /// `then`.
    Then,
    /// `output`.
    Output(Seq<char>),
}

/// A run-at-once builder ([`crate::dsl::PipelineBuilder`] and its
/// configurators) after one call.
pub open spec fn run_call(b: BuilderModel, c: BuilderCall) -> BuilderModel {
    match c {
        BuilderCall::Start(s) => b.started(s),
        BuilderCall::Configure(e) => b.edited(e),
        BuilderCall::Then => b.finalized(),
        BuilderCall::Output(id) => b.with_output(id),
    }
}

/// A run-at-once builder after `calls`, in order.
pub open spec fn run_calls(b: BuilderModel, calls: Seq<BuilderCall>) -> BuilderModel
    decreases calls.len(),
{
    if calls.len() == 0 {
        b
    } else {
        run_call(run_calls(b, calls.drop_last()), calls.last())
    }
}

/// A registering builder ([`crate::dsl::CreatePipelineBuilder`] and its
/// configurators) after one call.
pub open spec fn create_call(b: BuilderModel, c: BuilderCall) -> BuilderModel {
    match c {
        BuilderCall::Start(s) => b.appended(s),
        BuilderCall::Configure(e) => b.edited_last(e),
        BuilderCall::Then => b,
        BuilderCall::Output(id) => b.with_output(id),
    }
}

/// A registering builder after `calls`, in order.
pub open spec fn create_calls(b: BuilderModel, calls: Seq<BuilderCall>) -> BuilderModel
    decreases calls.len(),
{
    if calls.len() == 0 {
        b
    } else {
        create_call(create_calls(b, calls.drop_last()), calls.last())
    }
}

/// How many of `calls` start a step.
pub open spec fn starts(calls: Seq<BuilderCall>) -> nat
    decreases calls.len(),
{
    if calls.len() == 0 {
        0
    } else {
        starts(calls.drop_last()) + if calls.last() is Start {
            1nat
        } else {
            0nat
        }
    }
}

proof fn lemma_run_count(b: BuilderModel, calls: Seq<BuilderCall>)
    ensures
        run_calls(b, calls).finalized().steps.len() == b.finalized().steps.len() + starts(calls),
    decreases calls.len(),
{
    if calls.len() > 0 {
        lemma_run_count(b, calls.drop_last());
    }
}

proof fn lemma_create_count(b: BuilderModel, calls: Seq<BuilderCall>)
    ensures
        create_calls(b, calls).finalized().steps.len() == b.finalized().steps.len() + starts(
            calls,
        ),
        create_calls(b, calls).active == b.active,
    decreases calls.len(),
{
    if calls.len() > 0 {
        lemma_create_count(b, calls.drop_last());
    }
}

/// A built pipeline holds one step for each step started, whatever setters,
/// `then` and `output` calls came between.
pub proof fn lemma_step_count(name: Seq<char>, calls: Seq<BuilderCall>)
    ensures
        run_calls(BuilderModel::fresh(name), calls).pipeline().steps.len() == starts(calls),
        create_calls(BuilderModel::fresh(name), calls).pipeline().steps.len() == starts(calls),
{
    lemma_run_count(BuilderModel::fresh(name), calls);
    lemma_create_count(BuilderModel::fresh(name), calls);
}

proof fn lemma_run_prefix(b: BuilderModel, calls: Seq<BuilderCall>)
    ensures
        run_calls(b, calls).steps.len() >= b.steps.len(),
        run_calls(b, calls).steps.subrange(0, b.steps.len() as int) == b.steps,
    decreases calls.len(),
{
    if calls.len() > 0 {
        lemma_run_prefix(b, calls.drop_last());
        let r = run_calls(b, calls.drop_last());
        assert(r.finalized().steps.subrange(0, b.steps.len() as int) =~= b.steps);
    } else {
        assert(b.steps.subrange(0, b.steps.len() as int) =~= b.steps);
    }
}

/// Starting a step freezes every step declared before it, the previous one
/// included: no later call of a run-at-once builder changes them.
pub proof fn lemma_run_earlier_steps_frozen(
    b: BuilderModel,
    s: StepModel,
    calls: Seq<BuilderCall>,
)
    ensures
        run_calls(b.started(s), calls).pipeline().steps.len() > b.finalized().steps.len(),
        run_calls(b.started(s), calls).pipeline().steps.subrange(
            0,
            b.finalized().steps.len() as int,
        ) == b.finalized().steps,
{
    let start = b.started(s);
    lemma_run_prefix(start, calls);
    lemma_run_count(start, calls);
    let r = run_calls(start, calls);
    assert(r.finalized().steps.subrange(0, b.finalized().steps.len() as int) =~= r.steps.subrange(
        0,
        b.finalized().steps.len() as int,
    ));
}

proof fn lemma_create_prefix(b: BuilderModel, calls: Seq<BuilderCall>)
    requires
        b.steps.len() > 0,
    ensures
        create_calls(b, calls).steps.len() >= b.steps.len(),
        create_calls(b, calls).steps.subrange(0, b.steps.len() - 1) == b.steps.subrange(
            0,
            b.steps.len() - 1,
        ),
    decreases calls.len(),
{
    if calls.len() > 0 {
        lemma_create_prefix(b, calls.drop_last());
        let r = create_calls(b, calls.drop_last());
        assert(create_call(r, calls.last()).steps.subrange(0, b.steps.len() - 1)
            =~= r.steps.subrange(0, b.steps.len() - 1));
    }
}

/// Starting a step freezes every step pushed before it: later calls of a
/// registering builder configure the new step and those after it only.
pub proof fn lemma_create_earlier_steps_frozen(
    b: BuilderModel,
    s: StepModel,
    calls: Seq<BuilderCall>,
)
    ensures
        create_calls(b.appended(s), calls).steps.len() > b.steps.len(),
        create_calls(b.appended(s), calls).steps.subrange(0, b.steps.len() as int) == b.steps,
{
    lemma_create_prefix(b.appended(s), calls);
    assert(b.appended(s).steps.subrange(0, b.steps.len() as int) =~= b.steps);
}

/// Requesting an output twice is requesting it once; the outputs keep the
/// order in which each was first requested.
pub proof fn lemma_output_idempotent(b: BuilderModel, id: Seq<char>)
    ensures
        b.with_output(id).with_output(id).outputs == b.with_output(id).outputs,
        b.with_output(id).outputs.contains(id),
        b.with_output(id).outputs.subrange(0, b.outputs.len() as int) == b.outputs,
        b.outputs.no_duplicates() ==> b.with_output(id).outputs.no_duplicates(),
{
    let o = b.with_output(id).outputs;
    if !b.outputs.contains(id) {
        assert(o[b.outputs.len() as int] == id);
    }
    assert(o.subrange(0, b.outputs.len() as int) =~= b.outputs);
}

proof fn lemma_run_outputs_distinct(b: BuilderModel, calls: Seq<BuilderCall>)
    requires
        b.outputs.no_duplicates(),
    ensures
        run_calls(b, calls).outputs.no_duplicates(),
    decreases calls.len(),
{
    if calls.len() > 0 {
        lemma_run_outputs_distinct(b, calls.drop_last());
        let r = run_calls(b, calls.drop_last());
        if let BuilderCall::Output(id) = calls.last() {
            lemma_output_idempotent(r, id);
        }
    }
}

proof fn lemma_create_outputs_distinct(b: BuilderModel, calls: Seq<BuilderCall>)
    requires
        b.outputs.no_duplicates(),
    ensures
        create_calls(b, calls).outputs.no_duplicates(),
    decreases calls.len(),
{
    if calls.len() > 0 {
        lemma_create_outputs_distinct(b, calls.drop_last());
        let r = create_calls(b, calls.drop_last());
        if let BuilderCall::Output(id) = calls.last() {
            lemma_output_idempotent(r, id);
        }
    }
}

/// Each requested output occurs exactly once in a built pipeline.
pub proof fn lemma_outputs_distinct(name: Seq<char>, calls: Seq<BuilderCall>)
    ensures
        run_calls(BuilderModel::fresh(name), calls).pipeline().outputs.no_duplicates(),
        create_calls(BuilderModel::fresh(name), calls).pipeline().outputs.no_duplicates(),
{
    lemma_run_outputs_distinct(BuilderModel::fresh(name), calls);
    lemma_create_outputs_distinct(BuilderModel::fresh(name), calls);
}

/// Every kind of step lowers to its own fixed wire name, in both request
/// shapes.
pub proof fn lemma_kind_tags(k: ActionType, other: ActionType)
    ensures
        <run::ActionType as FromSpec<ActionType>>::from_spec(k).tag() == kind_tag(k),
        <create::ActionType as FromSpec<ActionType>>::from_spec(k).tag() == kind_tag(k),
        run::is_known_tag(kind_tag(k)),
        k != other ==> kind_tag(k) != kind_tag(other),
{
    lemma_tag_lengths();
}

/// The kind a wire name stands for, if it is one of the five.
pub open spec fn kind_of_tag(t: Seq<char>) -> Option<ActionType> {
    if t == "WEBHOOK"@ {
        Some(ActionType::Webhook)
    } else if t == "LLM_WORKFLOW"@ {
        Some(ActionType::LlmWorkflow)
    } else if t == "EVENT"@ {
        Some(ActionType::Event)
    } else if t == "NIMBUS_CONTAINER"@ {
        Some(ActionType::NimbusContainer)
    } else if t == "SCRIPT"@ {
        Some(ActionType::Script)
    } else {
        None
    }
}

/// The five wire names differ in length, hence from one another.
proof fn lemma_tag_lengths()
    ensures
        "WEBHOOK"@.len() == 7,
        "LLM_WORKFLOW"@.len() == 12,
        "EVENT"@.len() == 5,
        "NIMBUS_CONTAINER"@.len() == 16,
        "SCRIPT"@.len() == 6,
{
    reveal_strlit("WEBHOOK");
    reveal_strlit("LLM_WORKFLOW");
    reveal_strlit("EVENT");
    reveal_strlit("NIMBUS_CONTAINER");
    reveal_strlit("SCRIPT");
}

proof fn lemma_kind_of_tag(k: ActionType)
    ensures
        kind_of_tag(kind_tag(k)) == Some(k),
{
    lemma_tag_lengths();
}

/// A step read back from a run request, field for field.
pub open spec fn step_from_run_shape(s: run::StepInputModel, kind: ActionType) -> StepModel {
    StepModel {
        id: Some(s.id),
        name: s.name,
        key: s.key,
        kind,
        data: s.data,
        target: s.target,
        depends_on: s.depends_on,
        expression: s.expression,
    }
}

/// A pipeline read back from a run request, where every step's wire name is
/// one of the five kinds.
pub open spec fn pipeline_from_run_shape(r: run::RunPipelineInputModel) -> Option<PipelineModel> {
    if forall|i: int| 0 <= i < r.steps.len() ==> (#[trigger] kind_of_tag(r.steps[i].tag)) is Some {
        Some(
            PipelineModel {
                name: r.name,
                trigger: None,
                steps: r.steps.map_values(
                    |s: run::StepInputModel| step_from_run_shape(s, kind_of_tag(s.tag).unwrap()),
                ),
                outputs: r.outputs,
            },
        )
    } else {
        None
    }
}

/// `p` with every step's id resolved, and without a trigger.
pub open spec fn with_resolved_ids(p: PipelineModel) -> PipelineModel {
    PipelineModel {
        name: p.name,
        trigger: None,
        steps: p.steps.map_values(|s: StepModel| StepModel { id: Some(s.resolved_id()), ..s }),
        outputs: p.outputs,
    }
}

/// Lowering a pipeline to a run request and reading it back gives its name,
/// its steps with their ids resolved, and its outputs.
pub proof fn lemma_run_shape_round_trip(p: PipelineModel)
    ensures
        pipeline_from_run_shape(run_shape(p)) == Some(with_resolved_ids(p)),
{
    let r = run_shape(p);
    assert forall|i: int| 0 <= i < r.steps.len() implies #[trigger] kind_of_tag(r.steps[i].tag)
        == Some(p.steps[i].kind) by {
        assert(r.steps[i] == run_step_shape(p.steps[i]));
        assert(r.steps[i].tag == kind_tag(p.steps[i].kind));
        lemma_kind_of_tag(p.steps[i].kind);
    }
    assert(forall|i: int| 0 <= i < r.steps.len() ==> (#[trigger] kind_of_tag(r.steps[i].tag)) is Some);
    let back = pipeline_from_run_shape(r).unwrap();
    assert(back.steps =~= with_resolved_ids(p).steps);
}

} // verus!
