//! The builders that assemble steps into a pipeline.
use crate::json::{decimal, decimal_text, Json, JsonModel};
pub use crate::step::{ActionType, LLMWorkflowTypes, Step};
use crate::step::{
    command_json, command_model, container_data, container_payload, edit_of, edit_step,
    empty_data, empty_payload, fresh_step, new_step, script_data, script_payload, text_opt,
    webhook_data, webhook_payload, Edit, StepEdit, StepModel,
};
use vstd::prelude::*;

verus! {

broadcast use vstd::std_specs::vec::group_vec_axioms;

// --- the builder's state ---

/// A remark the builder makes without failing.
#[derive(Debug, Clone, PartialEq, Eq)]
pub enum BuilderDiagnostic {
    /// An output was requested under an id that no step declared so far goes by.
    UnknownOutputStep(String),
}

/// A finished pipeline, as the model sees it.
pub struct PipelineModel {
    pub name: Seq<char>,
    pub trigger: Option<Seq<char>>,
    pub steps: Seq<StepModel>,
    pub outputs: Seq<Seq<char>>,
}

/// A builder, as the model sees it: the steps pushed so far, the step under
/// configuration, the requested outputs, and the ids of unknown outputs.
pub struct BuilderModel {
    pub name: Seq<char>,
    pub trigger: Option<Seq<char>>,
    pub steps: Seq<StepModel>,
    pub outputs: Seq<Seq<char>>,
    pub active: Option<StepModel>,
    pub unknown_outputs: Seq<Seq<char>>,
}

/// Whether one of `steps`, or `active`, goes by `id`.
pub open spec fn declares_id(steps: Seq<StepModel>, active: Option<StepModel>, id: Seq<char>) -> bool {
    ||| exists|i: int| 0 <= i < steps.len() && steps[i].resolved_id() == id
    ||| (active matches Some(s) && s.resolved_id() == id)
}

impl BuilderModel {
    pub open spec fn fresh(name: Seq<char>) -> BuilderModel {
        BuilderModel {
            name,
            trigger: None,
            steps: Seq::empty(),
            outputs: Seq::empty(),
            active: None,
            unknown_outputs: Seq::empty(),
        }
    }

    /// The step under configuration, if any, pushed after the others.
    pub open spec fn finalized(self) -> BuilderModel {
        match self.active {
            Some(s) => BuilderModel { steps: self.steps.push(s), active: None, ..self },
            None => self,
        }
    }

    /// Starting a step: the previous one is pushed, and `s` is configured next.
    pub open spec fn started(self, s: StepModel) -> BuilderModel {
        BuilderModel { active: Some(s), ..self.finalized() }
    }

    /// An edit of the step under configuration; without one, nothing changes.
    pub open spec fn edited(self, e: Edit) -> BuilderModel {
        match self.active {
            Some(s) => BuilderModel { active: Some(edit_step(s, e)), ..self },
            None => self,
        }
    }

    /// A step pushed at once, to be configured in place as the last one.
    pub open spec fn appended(self, s: StepModel) -> BuilderModel {
        BuilderModel { steps: self.steps.push(s), ..self }
    }

    /// An edit of the last pushed step; without one, nothing changes.
    pub open spec fn edited_last(self, e: Edit) -> BuilderModel {
        if self.steps.len() > 0 {
            BuilderModel {
                steps: self.steps.update(
                    self.steps.len() - 1,
                    edit_step(self.steps.last(), e),
                ),
                ..self
            }
        } else {
            self
        }
    }

    pub open spec fn with_trigger(self, t: Seq<char>) -> BuilderModel {
        BuilderModel { trigger: Some(t), ..self }
    }

    /// Whether a step declared so far, pushed or under configuration, goes by `id`.
    pub open spec fn declares(self, id: Seq<char>) -> bool {
        declares_id(self.steps, self.active, id)
    }

    /// Requesting output `id`: it is appended unless already requested, and
    /// noted as unknown when no step declared so far goes by it.
    pub open spec fn with_output(self, id: Seq<char>) -> BuilderModel {
        BuilderModel {
            outputs: if self.outputs.contains(id) {
                self.outputs
            } else {
                self.outputs.push(id)
            },
            unknown_outputs: if self.declares(id) {
                self.unknown_outputs
            } else {
                self.unknown_outputs.push(id)
            },
            ..self
        }
    }

    /// The pipeline that building yields.
    pub open spec fn pipeline(self) -> PipelineModel {
        let f = self.finalized();
        PipelineModel { name: f.name, trigger: f.trigger, steps: f.steps, outputs: f.outputs }
    }
}

pub open spec fn steps_model(v: Seq<Step>) -> Seq<StepModel> {
    Seq::new(v.len(), |i: int| v[i]@)
}

pub open spec fn texts(v: Seq<String>) -> Seq<Seq<char>> {
    Seq::new(v.len(), |i: int| v[i]@)
}

pub open spec fn step_opt(o: Option<Step>) -> Option<StepModel> {
    match o {
        Some(s) => Some(s@),
        None => None,
    }
}

pub open spec fn diagnostic_ids(v: Seq<BuilderDiagnostic>) -> Seq<Seq<char>> {
    Seq::new(
        v.len(),
        |i: int|
            match v[i] {
                BuilderDiagnostic::UnknownOutputStep(id) => id@,
            },
    )
}

/// A finished pipeline.
#[derive(Debug, Clone)]
pub struct Pipeline {
    pub name: String,
    pub trigger: Option<String>,
    pub steps: Vec<Step>,
    pub outputs: Vec<String>,
}

impl View for Pipeline {
    type V = PipelineModel;

    open spec fn view(&self) -> PipelineModel {
        PipelineModel {
            name: self.name@,
            trigger: text_opt(self.trigger),
            steps: steps_model(self.steps@),
            outputs: texts(self.outputs@),
        }
    }
}

fn goes_by(step: &Step, id: &String) -> (r: bool)
    ensures
        r == (step@.resolved_id() == id@),
{
    match &step.id {
        Some(own) => own.eq(id),
        None => step.name.eq(id),
    }
}

fn declared(steps: &Vec<Step>, current: &Option<Step>, id: &str) -> (r: bool)
    ensures
        r == declares_id(steps_model(steps@), step_opt(*current), id@),
{
    let ghost m = steps_model(steps@);
    let wanted = id.to_owned();
    let mut i: usize = 0;
    while i < steps.len()
        invariant
            i <= steps@.len(),
            wanted@ == id@,
            m == steps_model(steps@),
            forall|j: int| 0 <= j < i ==> m[j].resolved_id() != id@,
        decreases steps@.len() - i,
    {
        if goes_by(&steps[i], &wanted) {
            assert(m[i as int].resolved_id() == id@);
            return true;
        }
        i = i + 1;
    }
    match current {
        Some(s) => goes_by(s, &wanted),
        None => false,
    }
}

fn listed(outputs: &Vec<String>, id: &str) -> (r: bool)
    ensures
        r == texts(outputs@).contains(id@),
{
    let wanted = id.to_owned();
    let mut i: usize = 0;
    while i < outputs.len()
        invariant
            i <= outputs@.len(),
            wanted@ == id@,
            forall|j: int| 0 <= j < i ==> outputs@[j]@ != id@,
        decreases outputs@.len() - i,
    {
        if outputs[i] == wanted {
            assert(texts(outputs@)[i as int] == id@);
            return true;
        }
        i = i + 1;
    }
    false
}

// --- PipelineBuilder ---

/// Builds a pipeline that is run as soon as it is submitted.
#[derive(Default)]
pub struct PipelineBuilder {
    name: String,
    trigger: Option<String>,
    steps: Vec<Step>,
    outputs: Vec<String>,
    current_step: Option<Step>,
    diagnostics: Vec<BuilderDiagnostic>,
}

impl View for PipelineBuilder {
    type V = BuilderModel;

    closed spec fn view(&self) -> BuilderModel {
        BuilderModel {
            name: self.name@,
            trigger: text_opt(self.trigger),
            steps: steps_model(self.steps@),
            outputs: texts(self.outputs@),
            active: step_opt(self.current_step),
            unknown_outputs: diagnostic_ids(self.diagnostics@),
        }
    }
}

impl PipelineBuilder {
    pub fn new(name: &str) -> (r: Self)
        ensures
            r@ == BuilderModel::fresh(name@),
    {
        let r = PipelineBuilder {
            name: name.to_owned(),
            trigger: None,
            steps: Vec::new(),
            outputs: Vec::new(),
            current_step: None,
            diagnostics: Vec::new(),
        };
        assert(steps_model(r.steps@) =~= Seq::empty());
        assert(texts(r.outputs@) =~= Seq::empty());
        assert(diagnostic_ids(r.diagnostics@) =~= Seq::empty());
        r
    }

    pub fn webhook(self, id: &str, url: &str) -> (r: WebhookStepBuilder)
        ensures
            r@ == self@.started(
                fresh_step(Some(id@), id@, ActionType::Webhook, webhook_payload(url@)),
            ),
    {
        WebhookStepBuilder::new(self, id, url)
    }

    pub fn script(self, id: &str, cmd: &str) -> (r: ScriptStepBuilder)
        ensures
            r@ == self@.started(
                fresh_step(Some(id@), id@, ActionType::Script, script_payload(cmd@)),
            ),
    {
        ScriptStepBuilder::new(self, id, cmd)
    }

    pub fn container(self, id: &str, image: &str) -> (r: ContainerStepBuilder)
        ensures
            r@ == self@.started(
                fresh_step(
                    Some(id@),
                    id@,
                    ActionType::NimbusContainer,
                    container_payload(image@, id@),
                ),
            ),
    {
        ContainerStepBuilder::new(self, id, image)
    }

    pub fn llm_workflow(self, id: &str) -> (r: LlmWorkflowStepBuilder)
        ensures
            r@ == self@.started(
                fresh_step(Some(id@), id@, ActionType::LlmWorkflow, empty_payload()),
            ),
    {
        LlmWorkflowStepBuilder::new(self, id)
    }

    /// Requests the result of step `id`. A repeated request is dropped; an id
    /// that no step declared so far goes by is accepted and noted.
    pub fn output(self, id: &str) -> (r: Self)
        ensures
            r@ == self@.with_output(id@),
    {
        let mut b = self;
        if !declared(&b.steps, &b.current_step, id) {
            b.diagnostics.push(BuilderDiagnostic::UnknownOutputStep(id.to_owned()));
        }
        if !listed(&b.outputs, id) {
            b.outputs.push(id.to_owned());
        }
        proof {
            assert(texts(b.outputs@) =~= self@.with_output(id@).outputs);
            assert(diagnostic_ids(b.diagnostics@) =~= self@.with_output(id@).unknown_outputs);
        }
        b
    }

    pub fn build(self) -> (r: Pipeline)
        ensures
            r@ == self@.pipeline(),
    {
        let mut b = self;
        b.push_current();
        Pipeline { name: b.name, trigger: b.trigger, steps: b.steps, outputs: b.outputs }
    }

    /// The remarks made so far, oldest first.
    pub fn diagnostics(&self) -> (r: &Vec<BuilderDiagnostic>)
        ensures
            diagnostic_ids(r@) == self@.unknown_outputs,
    {
        &self.diagnostics
    }

    /// Pushes the step under configuration, if any.
    fn push_current(&mut self)
        ensures
            final(self)@ == old(self)@.finalized(),
    {
        match self.current_step.take() {
            Some(step) => {
                self.steps.push(step);
                assert(steps_model(self.steps@) =~= steps_model(old(self).steps@).push(
                    old(self)@.active.unwrap(),
                ));
            },
            None => {},
        }
    }

    /// Starts configuring `step`, pushing the previous one.
    fn start(&mut self, step: Step)
        ensures
            final(self)@ == old(self)@.started(step@),
    {
        self.push_current();
        self.current_step = Some(step);
    }

    /// Applies `e` to the step under configuration.
    fn edit_current(&mut self, e: StepEdit)
        ensures
            final(self)@ == old(self)@.edited(edit_of(e)),
    {
        match self.current_step.take() {
            Some(step) => {
                self.current_step = Some(step.apply(e));
            },
            None => {},
        }
    }
}

// --- WebhookStepBuilder ---

/// Configures a webhook step of a [`PipelineBuilder`].
pub struct WebhookStepBuilder {
    pipeline: PipelineBuilder,
    step_id: String,
}

impl View for WebhookStepBuilder {
    type V = BuilderModel;

    closed spec fn view(&self) -> BuilderModel {
        self.pipeline@
    }
}

impl WebhookStepBuilder {
    /// Starts the step, pushing the one configured before it.
    pub fn new(pipeline: PipelineBuilder, id: &str, url: &str) -> (r: Self)
        ensures
            r@ == pipeline@.started(fresh_step(Some(id@), id@, ActionType::Webhook, webhook_payload(url@))),
    {
        let step = new_step(Some(id.to_owned()), id, ActionType::Webhook, webhook_data(url));
        let mut pipeline = pipeline;
        pipeline.start(step);
        Self { pipeline, step_id: id.to_owned() }
    }

    /// Sets the HTTP method.
    pub fn method(self, method: &str) -> (r: Self)
        ensures
            r@ == self@.edited(Edit::Member("method"@, JsonModel::Str(method@))),
    {
        let mut b = self;
        b.pipeline.edit_current(StepEdit::Member("method".to_owned(), Json::text(method)));
        b
    }

    /// Sets header `key` to `value` in the payload's `headers`.
    pub fn header(self, key: &str, value: &str) -> (r: Self)
        ensures
            r@ == self@.edited(Edit::Header(key@, value@)),
    {
        let mut b = self;
        b.pipeline.edit_current(StepEdit::Header(key.to_owned(), value.to_owned()));
        b
    }

    /// Sets the request body to a structured value.
    pub fn body(self, body: Json) -> (r: Self)
        ensures
            r@ == self@.edited(Edit::Member("body"@, body@)),
    {
        let mut b = self;
        b.pipeline.edit_current(StepEdit::Member("body".to_owned(), body));
        b
    }

    /// Makes the step depend on step `id`; a later call replaces it.
    pub fn depends_on(self, id: &str) -> (r: Self)
        ensures
            r@ == self@.edited(Edit::DependsOn(id@)),
    {
        let mut b = self;
        b.pipeline.edit_current(StepEdit::DependsOn(id.to_owned()));
        b
    }

    /// Guards the step with `expression`; a later call replaces it.
    pub fn when(self, expression: &str) -> (r: Self)
        ensures
            r@ == self@.edited(Edit::Guard(expression@)),
    {
        let mut b = self;
        b.pipeline.edit_current(StepEdit::Guard(expression.to_owned()));
        b
    }

    /// Ends this step's configuration.
    pub fn then(self) -> (r: PipelineBuilder)
        ensures
            r@ == self@.finalized(),
    {
        let mut b = self;
        b.pipeline.push_current();
        b.pipeline
    }
}

// --- ScriptStepBuilder ---

/// Configures a script step of a [`PipelineBuilder`].
pub struct ScriptStepBuilder {
    pipeline: PipelineBuilder,
    step_id: String,
}

impl View for ScriptStepBuilder {
    type V = BuilderModel;

    closed spec fn view(&self) -> BuilderModel {
        self.pipeline@
    }
}

impl ScriptStepBuilder {
    /// Starts the step, pushing the one configured before it.
    pub fn new(pipeline: PipelineBuilder, id: &str, script: &str) -> (r: Self)
        ensures
            r@ == pipeline@.started(fresh_step(Some(id@), id@, ActionType::Script, script_payload(script@))),
    {
        let step = new_step(Some(id.to_owned()), id, ActionType::Script, script_data(script));
        let mut pipeline = pipeline;
        pipeline.start(step);
        Self { pipeline, step_id: id.to_owned() }
    }

    /// Makes the step depend on step `id`; a later call replaces it.
    pub fn depends_on(self, id: &str) -> (r: Self)
        ensures
            r@ == self@.edited(Edit::DependsOn(id@)),
    {
        let mut b = self;
        b.pipeline.edit_current(StepEdit::DependsOn(id.to_owned()));
        b
    }

    /// Guards the step with `expression`; a later call replaces it.
    pub fn when(self, expression: &str) -> (r: Self)
        ensures
            r@ == self@.edited(Edit::Guard(expression@)),
    {
        let mut b = self;
        b.pipeline.edit_current(StepEdit::Guard(expression.to_owned()));
        b
    }

    /// Ends this step's configuration.
    pub fn then(self) -> (r: PipelineBuilder)
        ensures
            r@ == self@.finalized(),
    {
        let mut b = self;
        b.pipeline.push_current();
        b.pipeline
    }
}

// --- ContainerStepBuilder ---

/// Configures a container step of a [`PipelineBuilder`].
pub struct ContainerStepBuilder {
    pipeline: PipelineBuilder,
    step_id: String,
}

impl View for ContainerStepBuilder {
    type V = BuilderModel;

    closed spec fn view(&self) -> BuilderModel {
        self.pipeline@
    }
}

impl ContainerStepBuilder {
    /// Starts the step, pushing the one configured before it.
    pub fn new(pipeline: PipelineBuilder, id: &str, image: &str) -> (r: Self)
        ensures
            r@ == pipeline@.started(fresh_step(Some(id@), id@, ActionType::NimbusContainer, container_payload(image@, id@))),
    {
        let step = new_step(Some(id.to_owned()), id, ActionType::NimbusContainer, container_data(image, id));
        let mut pipeline = pipeline;
        pipeline.start(step);
        Self { pipeline, step_id: id.to_owned() }
    }

    /// Sets the command the container runs, one string per argument.
    pub fn with_args(self, args: &[&str]) -> (r: Self)
        ensures
            r@ == self@.edited(Edit::Member("command"@, command_model(args@))),
    {
        let mut b = self;
        b.pipeline.edit_current(StepEdit::Member("command".to_owned(), command_json(args)));
        b
    }

    /// Mounts `host_path` at `container_path`, writable, after the mounts so far.
    pub fn with_volume(self, host_path: &str, container_path: &str) -> (r: Self)
        ensures
            r@ == self@.edited(Edit::Volume(host_path@, container_path@)),
    {
        let mut b = self;
        b.pipeline.edit_current(StepEdit::Volume(host_path.to_owned(), container_path.to_owned()));
        b
    }

    /// Sets the platform the image is run for.
    pub fn platform(self, platform: &str) -> (r: Self)
        ensures
            r@ == self@.edited(Edit::Member("platform"@, JsonModel::Str(platform@))),
    {
        let mut b = self;
        b.pipeline.edit_current(StepEdit::Member("platform".to_owned(), Json::text(platform)));
        b
    }

    /// Sets the time limit, in seconds.
    pub fn timeout(self, seconds: u64) -> (r: Self)
        ensures
            r@ == self@.edited(Edit::Member("timeout"@, JsonModel::Number(decimal(seconds as nat)))),
    {
        let mut b = self;
        b.pipeline.edit_current(StepEdit::Member("timeout".to_owned(), Json::Number(decimal_text(seconds))));
        b
    }

    /// Sets the working directory inside the container.
    pub fn working_dir(self, dir: &str) -> (r: Self)
        ensures
            r@ == self@.edited(Edit::Member("working_dir"@, JsonModel::Str(dir@))),
    {
        let mut b = self;
        b.pipeline.edit_current(StepEdit::Member("working_dir".to_owned(), Json::text(dir)));
        b
    }

    /// Makes the step depend on step `id`; a later call replaces it.
    pub fn depends_on(self, id: &str) -> (r: Self)
        ensures
            r@ == self@.edited(Edit::DependsOn(id@)),
    {
        let mut b = self;
        b.pipeline.edit_current(StepEdit::DependsOn(id.to_owned()));
        b
    }

    /// Guards the step with `expression`; a later call replaces it.
    pub fn when(self, expression: &str) -> (r: Self)
        ensures
            r@ == self@.edited(Edit::Guard(expression@)),
    {
        let mut b = self;
        b.pipeline.edit_current(StepEdit::Guard(expression.to_owned()));
        b
    }

    /// Ends this step's configuration.
    pub fn then(self) -> (r: PipelineBuilder)
        ensures
            r@ == self@.finalized(),
    {
        let mut b = self;
        b.pipeline.push_current();
        b.pipeline
    }
}

// --- LlmWorkflowStepBuilder ---

/// Configures a LLM workflow step of a [`PipelineBuilder`].
pub struct LlmWorkflowStepBuilder {
    pipeline: PipelineBuilder,
    step_id: String,
}

impl View for LlmWorkflowStepBuilder {
    type V = BuilderModel;

    closed spec fn view(&self) -> BuilderModel {
        self.pipeline@
    }
}

impl LlmWorkflowStepBuilder {
    /// Starts the step, pushing the one configured before it.
    pub fn new(pipeline: PipelineBuilder, id: &str) -> (r: Self)
        ensures
            r@ == pipeline@.started(fresh_step(Some(id@), id@, ActionType::LlmWorkflow, empty_payload())),
    {
        let step = new_step(Some(id.to_owned()), id, ActionType::LlmWorkflow, empty_data());
        let mut pipeline = pipeline;
        pipeline.start(step);
        Self { pipeline, step_id: id.to_owned() }
    }

    /// Sets the prompt.
    pub fn prompt(self, prompt: &str) -> (r: Self)
        ensures
            r@ == self@.edited(Edit::Member("prompt"@, JsonModel::Str(prompt@))),
    {
        let mut b = self;
        b.pipeline.edit_current(StepEdit::Member("prompt".to_owned(), Json::text(prompt)));
        b
    }

    /// Records the kind of workflow in the step's target.
    pub fn workflow_type(self, workflow_type: &LLMWorkflowTypes) -> (r: Self)
        ensures
            r@ == self@.edited(Edit::Target(workflow_type.label())),
    {
        let mut b = self;
        b.pipeline.edit_current(StepEdit::Target(workflow_type.to_string()));
        b
    }

    /// Makes the step depend on step `id`; a later call replaces it.
    pub fn depends_on(self, id: &str) -> (r: Self)
        ensures
            r@ == self@.edited(Edit::DependsOn(id@)),
    {
        let mut b = self;
        b.pipeline.edit_current(StepEdit::DependsOn(id.to_owned()));
        b
    }

    /// Guards the step with `expression`; a later call replaces it.
    pub fn when(self, expression: &str) -> (r: Self)
        ensures
            r@ == self@.edited(Edit::Guard(expression@)),
    {
        let mut b = self;
        b.pipeline.edit_current(StepEdit::Guard(expression.to_owned()));
        b
    }

    /// Ends this step's configuration.
    pub fn then(self) -> (r: PipelineBuilder)
        ensures
            r@ == self@.finalized(),
    {
        let mut b = self;
        b.pipeline.push_current();
        b.pipeline
    }
}


// --- CreatePipelineBuilder ---

/// Builds a pipeline that is registered with a trigger and run later.
#[derive(Default, Debug, Clone)]
pub struct CreatePipelineBuilder {
    pub name: String,
    pub trigger: Option<String>,
    pub steps: Vec<Step>,
    pub outputs: Vec<String>,
    pub current_step: Option<Step>,
    pub diagnostics: Vec<BuilderDiagnostic>,
}

impl View for CreatePipelineBuilder {
    type V = BuilderModel;

    open spec fn view(&self) -> BuilderModel {
        BuilderModel {
            name: self.name@,
            trigger: text_opt(self.trigger),
            steps: steps_model(self.steps@),
            outputs: texts(self.outputs@),
            active: step_opt(self.current_step),
            unknown_outputs: diagnostic_ids(self.diagnostics@),
        }
    }
}

impl CreatePipelineBuilder {
    pub fn new(name: &str) -> (r: Self)
        ensures
            r@ == BuilderModel::fresh(name@),
    {
        let r = CreatePipelineBuilder {
            name: name.to_owned(),
            trigger: None,
            steps: Vec::new(),
            outputs: Vec::new(),
            current_step: None,
            diagnostics: Vec::new(),
        };
        assert(steps_model(r.steps@) =~= Seq::empty());
        assert(texts(r.outputs@) =~= Seq::empty());
        assert(diagnostic_ids(r.diagnostics@) =~= Seq::empty());
        r
    }

    /// Sets the trigger the pipeline is registered with.
    pub fn trigger(self, trigger: &str) -> (r: Self)
        ensures
            r@ == self@.with_trigger(trigger@),
    {
        let mut b = self;
        b.trigger = Some(trigger.to_owned());
        b
    }

    pub fn webhook(self, name: &str, url: &str) -> (r: CreateWebhookStepBuilder)
        ensures
            r@ == self@.appended(fresh_step(None, name@, ActionType::Webhook, webhook_payload(url@))),
    {
        CreateWebhookStepBuilder::new(self, name, url)
    }

    pub fn script(self, name: &str, cmd: &str) -> (r: CreateScriptStepBuilder)
        ensures
            r@ == self@.appended(fresh_step(None, name@, ActionType::Script, script_payload(cmd@))),
    {
        CreateScriptStepBuilder::new(self, name, cmd)
    }

    pub fn container(self, name: &str, image: &str) -> (r: CreateContainerStepBuilder)
        ensures
            r@ == self@.appended(
                fresh_step(
                    None,
                    name@,
                    ActionType::NimbusContainer,
                    container_payload(image@, name@),
                ),
            ),
    {
        CreateContainerStepBuilder::new(self, name, image)
    }

    pub fn llm_workflow(self, name: &str) -> (r: CreateLlmWorkflowStepBuilder)
        ensures
            r@ == self@.appended(fresh_step(None, name@, ActionType::LlmWorkflow, empty_payload())),
    {
        CreateLlmWorkflowStepBuilder::new(self, name)
    }

    /// Requests the result of step `id`. A repeated request is dropped; an id
    /// that no step declared so far goes by is accepted and noted.
    pub fn output(self, id: &str) -> (r: Self)
        ensures
            r@ == self@.with_output(id@),
    {
        let mut b = self;
        if !declared(&b.steps, &b.current_step, id) {
            b.diagnostics.push(BuilderDiagnostic::UnknownOutputStep(id.to_owned()));
        }
        if !listed(&b.outputs, id) {
            b.outputs.push(id.to_owned());
        }
        proof {
            assert(texts(b.outputs@) =~= self@.with_output(id@).outputs);
            assert(diagnostic_ids(b.diagnostics@) =~= self@.with_output(id@).unknown_outputs);
        }
        b
    }

    pub fn build(self) -> (r: Pipeline)
        ensures
            r@ == self@.pipeline(),
    {
        let mut b = self;
        b.push_current();
        Pipeline { name: b.name, trigger: b.trigger, steps: b.steps, outputs: b.outputs }
    }

    /// Pushes the step held aside, if any.
    fn push_current(&mut self)
        ensures
            final(self)@ == old(self)@.finalized(),
    {
        match self.current_step.take() {
            Some(step) => {
                self.steps.push(step);
                assert(steps_model(self.steps@) =~= steps_model(old(self).steps@).push(
                    old(self)@.active.unwrap(),
                ));
            },
            None => {},
        }
    }

    /// Pushes `step` as the last one.
    fn append(&mut self, step: Step)
        ensures
            final(self)@ == old(self)@.appended(step@),
    {
        self.steps.push(step);
        assert(steps_model(self.steps@) =~= steps_model(old(self).steps@).push(step@));
    }

    /// Applies `e` to the last pushed step.
    fn edit_last(&mut self, e: StepEdit)
        ensures
            final(self)@ == old(self)@.edited_last(edit_of(e)),
    {
        match self.steps.pop() {
            Some(step) => {
                let edited = step.apply(e);
                self.steps.push(edited);
                assert(steps_model(self.steps@) =~= steps_model(old(self).steps@).update(
                    old(self).steps@.len() - 1,
                    edit_step(old(self)@.steps.last(), edit_of(e)),
                ));
            },
            None => {},
        }
    }
}

// --- CreateWebhookStepBuilder ---

/// Configures a webhook step of a [`CreatePipelineBuilder`].
pub struct CreateWebhookStepBuilder {
    pipeline: CreatePipelineBuilder,
    step_name: String,
}

impl View for CreateWebhookStepBuilder {
    type V = BuilderModel;

    closed spec fn view(&self) -> BuilderModel {
        self.pipeline@
    }
}

impl CreateWebhookStepBuilder {
    /// Pushes the step at once; it is configured in place as the last one.
    pub fn new(pipeline: CreatePipelineBuilder, name: &str, url: &str) -> (r: Self)
        ensures
            r@ == pipeline@.appended(fresh_step(None, name@, ActionType::Webhook, webhook_payload(url@))),
    {
        let step = new_step(None, name, ActionType::Webhook, webhook_data(url));
        let mut pipeline = pipeline;
        pipeline.append(step);
        Self { pipeline, step_name: name.to_owned() }
    }

    /// Sets the HTTP method.
    pub fn method(self, method: &str) -> (r: Self)
        ensures
            r@ == self@.edited_last(Edit::Member("method"@, JsonModel::Str(method@))),
    {
        let mut b = self;
        b.pipeline.edit_last(StepEdit::Member("method".to_owned(), Json::text(method)));
        b
    }

    /// Sets header `key` to `value` in the payload's `headers`.
    pub fn header(self, key: &str, value: &str) -> (r: Self)
        ensures
            r@ == self@.edited_last(Edit::Header(key@, value@)),
    {
        let mut b = self;
        b.pipeline.edit_last(StepEdit::Header(key.to_owned(), value.to_owned()));
        b
    }

    /// Sets the request body to a structured value.
    pub fn body(self, body: Json) -> (r: Self)
        ensures
            r@ == self@.edited_last(Edit::Member("body"@, body@)),
    {
        let mut b = self;
        b.pipeline.edit_last(StepEdit::Member("body".to_owned(), body));
        b
    }

    /// Makes the step depend on step `id`; a later call replaces it.
    pub fn depends_on(self, id: &str) -> (r: Self)
        ensures
            r@ == self@.edited_last(Edit::DependsOn(id@)),
    {
        let mut b = self;
        b.pipeline.edit_last(StepEdit::DependsOn(id.to_owned()));
        b
    }

    /// Guards the step with `expression`; a later call replaces it.
    pub fn when(self, expression: &str) -> (r: Self)
        ensures
            r@ == self@.edited_last(Edit::Guard(expression@)),
    {
        let mut b = self;
        b.pipeline.edit_last(StepEdit::Guard(expression.to_owned()));
        b
    }

    /// Ends this step's configuration.
    pub fn then(self) -> (r: CreatePipelineBuilder)
        ensures
            r@ == self@,
    {
        self.pipeline
    }
}

// --- CreateScriptStepBuilder ---

/// Configures a script step of a [`CreatePipelineBuilder`].
pub struct CreateScriptStepBuilder {
    pipeline: CreatePipelineBuilder,
    step_name: String,
}

impl View for CreateScriptStepBuilder {
    type V = BuilderModel;

    closed spec fn view(&self) -> BuilderModel {
        self.pipeline@
    }
}

impl CreateScriptStepBuilder {
    /// Pushes the step at once; it is configured in place as the last one.
    pub fn new(pipeline: CreatePipelineBuilder, name: &str, script: &str) -> (r: Self)
        ensures
            r@ == pipeline@.appended(fresh_step(None, name@, ActionType::Script, script_payload(script@))),
    {
        let step = new_step(None, name, ActionType::Script, script_data(script));
        let mut pipeline = pipeline;
        pipeline.append(step);
        Self { pipeline, step_name: name.to_owned() }
    }

    /// Makes the step depend on step `id`; a later call replaces it.
    pub fn depends_on(self, id: &str) -> (r: Self)
        ensures
            r@ == self@.edited_last(Edit::DependsOn(id@)),
    {
        let mut b = self;
        b.pipeline.edit_last(StepEdit::DependsOn(id.to_owned()));
        b
    }

    /// Guards the step with `expression`; a later call replaces it.
    pub fn when(self, expression: &str) -> (r: Self)
        ensures
            r@ == self@.edited_last(Edit::Guard(expression@)),
    {
        let mut b = self;
        b.pipeline.edit_last(StepEdit::Guard(expression.to_owned()));
        b
    }

    /// Ends this step's configuration.
    pub fn then(self) -> (r: CreatePipelineBuilder)
        ensures
            r@ == self@,
    {
        self.pipeline
    }
}

// --- CreateContainerStepBuilder ---

/// Configures a container step of a [`CreatePipelineBuilder`].
pub struct CreateContainerStepBuilder {
    pipeline: CreatePipelineBuilder,
    step_name: String,
}

impl View for CreateContainerStepBuilder {
    type V = BuilderModel;

    closed spec fn view(&self) -> BuilderModel {
        self.pipeline@
    }
}

impl CreateContainerStepBuilder {
    /// Pushes the step at once; it is configured in place as the last one.
    pub fn new(pipeline: CreatePipelineBuilder, name: &str, image: &str) -> (r: Self)
        ensures
            r@ == pipeline@.appended(fresh_step(None, name@, ActionType::NimbusContainer, container_payload(image@, name@))),
    {
        let step = new_step(None, name, ActionType::NimbusContainer, container_data(image, name));
        let mut pipeline = pipeline;
        pipeline.append(step);
        Self { pipeline, step_name: name.to_owned() }
    }

    /// Sets the command the container runs, one string per argument.
    pub fn with_args(self, args: &[&str]) -> (r: Self)
        ensures
            r@ == self@.edited_last(Edit::Member("command"@, command_model(args@))),
    {
        let mut b = self;
        b.pipeline.edit_last(StepEdit::Member("command".to_owned(), command_json(args)));
        b
    }

    /// Mounts `host_path` at `container_path`, writable, after the mounts so far.
    pub fn with_volume(self, host_path: &str, container_path: &str) -> (r: Self)
        ensures
            r@ == self@.edited_last(Edit::Volume(host_path@, container_path@)),
    {
        let mut b = self;
        b.pipeline.edit_last(StepEdit::Volume(host_path.to_owned(), container_path.to_owned()));
        b
    }

    /// Sets the platform the image is run for.
    pub fn platform(self, platform: &str) -> (r: Self)
        ensures
            r@ == self@.edited_last(Edit::Member("platform"@, JsonModel::Str(platform@))),
    {
        let mut b = self;
        b.pipeline.edit_last(StepEdit::Member("platform".to_owned(), Json::text(platform)));
        b
    }

    /// Sets the time limit, in seconds.
    pub fn timeout(self, seconds: u64) -> (r: Self)
        ensures
            r@ == self@.edited_last(Edit::Member("timeout"@, JsonModel::Number(decimal(seconds as nat)))),
    {
        let mut b = self;
        b.pipeline.edit_last(StepEdit::Member("timeout".to_owned(), Json::Number(decimal_text(seconds))));
        b
    }

    /// Sets the working directory inside the container.
    pub fn working_dir(self, dir: &str) -> (r: Self)
        ensures
            r@ == self@.edited_last(Edit::Member("working_dir"@, JsonModel::Str(dir@))),
    {
        let mut b = self;
        b.pipeline.edit_last(StepEdit::Member("working_dir".to_owned(), Json::text(dir)));
        b
    }

    /// Makes the step depend on step `id`; a later call replaces it.
    pub fn depends_on(self, id: &str) -> (r: Self)
        ensures
            r@ == self@.edited_last(Edit::DependsOn(id@)),
    {
        let mut b = self;
        b.pipeline.edit_last(StepEdit::DependsOn(id.to_owned()));
        b
    }

    /// Guards the step with `expression`; a later call replaces it.
    pub fn when(self, expression: &str) -> (r: Self)
        ensures
            r@ == self@.edited_last(Edit::Guard(expression@)),
    {
        let mut b = self;
        b.pipeline.edit_last(StepEdit::Guard(expression.to_owned()));
        b
    }

    /// Ends this step's configuration.
    pub fn then(self) -> (r: CreatePipelineBuilder)
        ensures
            r@ == self@,
    {
        self.pipeline
    }
}

// --- CreateLlmWorkflowStepBuilder ---

/// Configures a LLM workflow step of a [`CreatePipelineBuilder`].
pub struct CreateLlmWorkflowStepBuilder {
    pipeline: CreatePipelineBuilder,
    step_name: String,
}

impl View for CreateLlmWorkflowStepBuilder {
    type V = BuilderModel;

    closed spec fn view(&self) -> BuilderModel {
        self.pipeline@
    }
}

impl CreateLlmWorkflowStepBuilder {
    /// Pushes the step at once; it is configured in place as the last one.
    pub fn new(pipeline: CreatePipelineBuilder, name: &str) -> (r: Self)
        ensures
            r@ == pipeline@.appended(fresh_step(None, name@, ActionType::LlmWorkflow, empty_payload())),
    {
        let step = new_step(None, name, ActionType::LlmWorkflow, empty_data());
        let mut pipeline = pipeline;
        pipeline.append(step);
        Self { pipeline, step_name: name.to_owned() }
    }

    /// Sets the prompt.
    pub fn prompt(self, prompt: &str) -> (r: Self)
        ensures
            r@ == self@.edited_last(Edit::Member("prompt"@, JsonModel::Str(prompt@))),
    {
        let mut b = self;
        b.pipeline.edit_last(StepEdit::Member("prompt".to_owned(), Json::text(prompt)));
        b
    }

    /// Records the kind of workflow in the step's target.
    pub fn workflow_type(self, workflow_type: &LLMWorkflowTypes) -> (r: Self)
        ensures
            r@ == self@.edited_last(Edit::Target(workflow_type.label())),
    {
        let mut b = self;
        b.pipeline.edit_last(StepEdit::Target(workflow_type.to_string()));
        b
    }

    /// Makes the step depend on step `id`; a later call replaces it.
    pub fn depends_on(self, id: &str) -> (r: Self)
        ensures
            r@ == self@.edited_last(Edit::DependsOn(id@)),
    {
        let mut b = self;
        b.pipeline.edit_last(StepEdit::DependsOn(id.to_owned()));
        b
    }

    /// Guards the step with `expression`; a later call replaces it.
    pub fn when(self, expression: &str) -> (r: Self)
        ensures
            r@ == self@.edited_last(Edit::Guard(expression@)),
    {
        let mut b = self;
        b.pipeline.edit_last(StepEdit::Guard(expression.to_owned()));
        b
    }

    /// Ends this step's configuration.
    pub fn then(self) -> (r: CreatePipelineBuilder)
        ensures
            r@ == self@,
    {
        self.pipeline
    }
}

} // verus!
