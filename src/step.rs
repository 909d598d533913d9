//! A step of a pipeline: its kind, its payload, and the edits its
//! configurators make.
use crate::json::{
    find_member, is_first_member, lemma_first_member, lemma_object_model, member,
    member_index, members_model, set_member, with_member, Json, JsonModel,
};
use vstd::prelude::*;

verus! {

broadcast use vstd::std_specs::vec::group_vec_axioms;

/// What a step does when it runs.
#[derive(Debug, Clone, Copy, PartialEq, Eq, Structural)]
pub enum ActionType {
    Webhook,
    LlmWorkflow,
    Event,
    NimbusContainer,
    Script,
}

/// One unit of a pipeline.
#[derive(Debug, Clone)]
pub struct Step {
    pub id: Option<String>,
    pub name: String,
    pub key: String,
    pub type_: ActionType,
    pub data: Json,
    pub target: Option<String>,
    pub depends_on: Option<String>,
    pub expression: Option<String>,
}

/// The mathematical value of a [`Step`].
pub struct StepModel {
    pub id: Option<Seq<char>>,
    pub name: Seq<char>,
    pub key: Seq<char>,
    pub kind: ActionType,
    pub data: JsonModel,
    pub target: Option<Seq<char>>,
    pub depends_on: Option<Seq<char>>,
    pub expression: Option<Seq<char>>,
}

pub open spec fn text_opt(o: Option<String>) -> Option<Seq<char>> {
    match o {
        Some(s) => Some(s@),
        None => None,
    }
}

impl View for Step {
    type V = StepModel;

    open spec fn view(&self) -> StepModel {
        StepModel {
            id: text_opt(self.id),
            name: self.name@,
            key: self.key@,
            kind: self.type_,
            data: self.data@,
            target: text_opt(self.target),
            depends_on: text_opt(self.depends_on),
            expression: text_opt(self.expression),
        }
    }
}

impl StepModel {
    /// The identifier the step goes by downstream: its id, or else its name.
    pub open spec fn resolved_id(self) -> Seq<char> {
        match self.id {
            Some(i) => i,
            None => self.name,
        }
    }
}

/// A freshly started step: no target, dependency or guard yet.
pub open spec fn fresh_step(
    id: Option<Seq<char>>,
    name: Seq<char>,
    kind: ActionType,
    data: JsonModel,
) -> StepModel {
    StepModel {
        id,
        name,
        key: name,
        kind,
        data,
        target: None,
        depends_on: None,
        expression: None,
    }
}

/// The payload a webhook step starts with.
pub open spec fn webhook_payload(url: Seq<char>) -> JsonModel {
    JsonModel::Object(seq![("url"@, JsonModel::Str(url)), ("method"@, JsonModel::Str("GET"@))])
}

/// The payload a script step starts with.
pub open spec fn script_payload(command: Seq<char>) -> JsonModel {
    JsonModel::Object(seq![("script"@, JsonModel::Str(command))])
}

/// The payload a container step starts with.
pub open spec fn container_payload(image: Seq<char>, step_id: Seq<char>) -> JsonModel {
    JsonModel::Object(
        seq![("image"@, JsonModel::Str(image)), ("step_id"@, JsonModel::Str(step_id))],
    )
}

/// The payload an LLM workflow step starts with.
pub open spec fn empty_payload() -> JsonModel {
    JsonModel::Object(Seq::empty())
}

/// A change to one step, as its configurators make them.
pub enum Edit {
    /// Bind a payload member.
    Member(Seq<char>, JsonModel),
    /// Bind a header in the payload's `headers` object.
    Header(Seq<char>, Seq<char>),
    /// Append a mount to the payload's `volumes` array.
    Volume(Seq<char>, Seq<char>),
    Target(Seq<char>),
    DependsOn(Seq<char>),
    Guard(Seq<char>),
}

/// The members of a payload; a payload that is not an object counts as empty.
pub open spec fn payload_members(data: JsonModel) -> Seq<(Seq<char>, JsonModel)> {
    match data {
        JsonModel::Object(m) => m,
        _ => Seq::empty(),
    }
}

/// One mount of a container step.
pub open spec fn volume_entry(host: Seq<char>, container: Seq<char>) -> JsonModel {
    JsonModel::Object(
        seq![
            ("host_path"@, JsonModel::Str(host)),
            ("container_path"@, JsonModel::Str(container)),
            ("read_only"@, JsonModel::Bool(false)),
        ],
    )
}

/// `m` with header `name` set to `value`; `headers` is created when absent
/// and left alone when it is not an object.
pub open spec fn with_header(
    m: Seq<(Seq<char>, JsonModel)>,
    name: Seq<char>,
    value: Seq<char>,
) -> Seq<(Seq<char>, JsonModel)> {
    match member(m, "headers"@) {
        None => with_member(m, "headers"@, JsonModel::Object(seq![(name, JsonModel::Str(value))])),
        Some(JsonModel::Object(h)) => with_member(
            m,
            "headers"@,
            JsonModel::Object(with_member(h, name, JsonModel::Str(value))),
        ),
        Some(_) => m,
    }
}

/// `m` with one more mount; `volumes` is created when absent and left alone
/// when it is not an array.
pub open spec fn with_volume(
    m: Seq<(Seq<char>, JsonModel)>,
    host: Seq<char>,
    container: Seq<char>,
) -> Seq<(Seq<char>, JsonModel)> {
    match member(m, "volumes"@) {
        None => with_member(m, "volumes"@, JsonModel::Array(seq![volume_entry(host, container)])),
        Some(JsonModel::Array(a)) => with_member(
            m,
            "volumes"@,
            JsonModel::Array(a.push(volume_entry(host, container))),
        ),
        Some(_) => m,
    }
}

/// The step after one edit.
pub open spec fn edit_step(s: StepModel, e: Edit) -> StepModel {
    match e {
        Edit::Member(k, v) => StepModel {
            data: JsonModel::Object(with_member(payload_members(s.data), k, v)),
            ..s
        },
        Edit::Header(k, v) => StepModel {
            data: JsonModel::Object(with_header(payload_members(s.data), k, v)),
            ..s
        },
        Edit::Volume(h, c) => StepModel {
            data: JsonModel::Object(with_volume(payload_members(s.data), h, c)),
            ..s
        },
        Edit::Target(t) => StepModel { target: Some(t), ..s },
        Edit::DependsOn(d) => StepModel { depends_on: Some(d), ..s },
        Edit::Guard(g) => StepModel { expression: Some(g), ..s },
    }
}

/// An [`Edit`] with its values.
pub(crate) enum StepEdit {
    Member(String, Json),
    Header(String, String),
    Volume(String, String),
    Target(String),
    DependsOn(String),
    Guard(String),
}

/// The [`Edit`] a [`StepEdit`] makes.
pub(crate) open spec fn edit_of(e: StepEdit) -> Edit {
    match e {
        StepEdit::Member(k, v) => Edit::Member(k@, v@),
        StepEdit::Header(k, v) => Edit::Header(k@, v@),
        StepEdit::Volume(h, c) => Edit::Volume(h@, c@),
        StepEdit::Target(t) => Edit::Target(t@),
        StepEdit::DependsOn(d) => Edit::DependsOn(d@),
        StepEdit::Guard(g) => Edit::Guard(g@),
    }
}

fn into_members(data: Json) -> (r: Vec<(String, Json)>)
    ensures
        members_model(r@) == payload_members(data@),
{
    match data {
        Json::Object(m) => {
            proof {
                lemma_object_model(m);
            }
            m
        },
        _ => {
            let r: Vec<(String, Json)> = Vec::new();
            assert(members_model(r@) =~= Seq::empty());
            r
        },
    }
}

proof fn lemma_found_member(m: Seq<(Seq<char>, JsonModel)>, key: Seq<char>, i: int)
    requires
        is_first_member(m, key, i),
    ensures
        member_index(m, key) == i,
        member(m, key) == Some(m[i].1),
{
    lemma_first_member(m, key, i);
}

fn set_header(members: &mut Vec<(String, Json)>, name: &str, value: &str)
    ensures
        members_model(final(members)@) == with_header(members_model(old(members)@), name@, value@),
{
    let ghost m = members_model(members@);
    match find_member(members, "headers") {
        None => {
            let mut h: Vec<(String, Json)> = Vec::new();
            h.push((name.to_owned(), Json::text(value)));
            proof {
                lemma_object_model(h);
                assert(members_model(h@) =~= seq![(name@, JsonModel::Str(value@))]);
            }
            set_member(members, "headers", Json::Object(h));
        },
        Some(i) => {
            proof {
                lemma_found_member(m, "headers"@, i as int);
            }
            let (key, current) = members.remove(i);
            match current {
                Json::Object(h) => {
                    let mut h = h;
                    proof {
                        lemma_object_model(h);
                    }
                    set_member(&mut h, name, Json::text(value));
                    proof {
                        lemma_object_model(h);
                    }
                    members.insert(i, (key, Json::Object(h)));
                },
                other => {
                    members.insert(i, (key, other));
                },
            }
            assert(members_model(members@) =~= with_header(m, name@, value@));
        },
    }
}

fn mount(host: &str, container: &str) -> (r: Json)
    ensures
        r@ == volume_entry(host@, container@),
{
    let mut v: Vec<(String, Json)> = Vec::new();
    v.push(("host_path".to_owned(), Json::text(host)));
    v.push(("container_path".to_owned(), Json::text(container)));
    v.push(("read_only".to_owned(), Json::Bool(false)));
    proof {
        lemma_object_model(v);
        assert(members_model(v@) =~= seq![
            ("host_path"@, JsonModel::Str(host@)),
            ("container_path"@, JsonModel::Str(container@)),
            ("read_only"@, JsonModel::Bool(false)),
        ]);
    }
    Json::Object(v)
}

fn add_volume(members: &mut Vec<(String, Json)>, host: &str, container: &str)
    ensures
        members_model(final(members)@) == with_volume(
            members_model(old(members)@),
            host@,
            container@,
        ),
{
    let ghost m = members_model(members@);
    match find_member(members, "volumes") {
        None => {
            let mut a: Vec<Json> = Vec::new();
            a.push(mount(host, container));
            proof {
                crate::json::lemma_array_model(a);
                assert(Seq::new(a@.len(), |j: int| a@[j]@) =~= seq![volume_entry(host@, container@)]);
            }
            set_member(members, "volumes", Json::Array(a));
        },
        Some(i) => {
            proof {
                lemma_found_member(m, "volumes"@, i as int);
            }
            let (key, current) = members.remove(i);
            match current {
                Json::Array(a) => {
                    let mut a = a;
                    proof {
                        crate::json::lemma_array_model(a);
                    }
                    let ghost before = a@;
                    a.push(mount(host, container));
                    proof {
                        crate::json::lemma_array_model(a);
                        assert(Seq::new(a@.len(), |j: int| a@[j]@) =~= Seq::new(
                            before.len(),
                            |j: int| before[j]@,
                        ).push(volume_entry(host@, container@)));
                    }
                    members.insert(i, (key, Json::Array(a)));
                },
                other => {
                    members.insert(i, (key, other));
                },
            }
            assert(members_model(members@) =~= with_volume(m, host@, container@));
        },
    }
}

impl Step {
    /// This step after `e`.
    pub(crate) fn apply(self, e: StepEdit) -> (r: Step)
        ensures
            r@ == edit_step(self@, edit_of(e)),
    {
        let Step { id, name, key, type_, data, target, depends_on, expression } = self;
        match e {
            StepEdit::Member(k, v) => {
                let mut m = into_members(data);
                set_member(&mut m, k.as_str(), v);
                proof {
                    lemma_object_model(m);
                }
                Step { id, name, key, type_, data: Json::Object(m), target, depends_on, expression }
            },
            StepEdit::Header(k, v) => {
                let mut m = into_members(data);
                set_header(&mut m, k.as_str(), v.as_str());
                proof {
                    lemma_object_model(m);
                }
                Step { id, name, key, type_, data: Json::Object(m), target, depends_on, expression }
            },
            StepEdit::Volume(h, c) => {
                let mut m = into_members(data);
                add_volume(&mut m, h.as_str(), c.as_str());
                proof {
                    lemma_object_model(m);
                }
                Step { id, name, key, type_, data: Json::Object(m), target, depends_on, expression }
            },
            StepEdit::Target(t) => Step {
                id,
                name,
                key,
                type_,
                data,
                target: Some(t),
                depends_on,
                expression,
            },
            StepEdit::DependsOn(d) => Step {
                id,
                name,
                key,
                type_,
                data,
                target,
                depends_on: Some(d),
                expression,
            },
            StepEdit::Guard(g) => Step {
                id,
                name,
                key,
                type_,
                data,
                target,
                depends_on,
                expression: Some(g),
            },
        }
    }
}

// --- starting a step ---

pub(crate) fn new_step(id: Option<String>, name: &str, kind: ActionType, data: Json) -> (r: Step)
    ensures
        r@ == fresh_step(text_opt(id), name@, kind, data@),
{
    Step {
        id,
        name: name.to_owned(),
        key: name.to_owned(),
        type_: kind,
        data,
        target: None,
        depends_on: None,
        expression: None,
    }
}

pub(crate) fn webhook_data(url: &str) -> (r: Json)
    ensures
        r@ == webhook_payload(url@),
{
    let mut m: Vec<(String, Json)> = Vec::new();
    m.push(("url".to_owned(), Json::text(url)));
    m.push(("method".to_owned(), Json::text("GET")));
    proof {
        lemma_object_model(m);
        assert(members_model(m@) =~= seq![
            ("url"@, JsonModel::Str(url@)),
            ("method"@, JsonModel::Str("GET"@)),
        ]);
    }
    Json::Object(m)
}

pub(crate) fn script_data(command: &str) -> (r: Json)
    ensures
        r@ == script_payload(command@),
{
    let mut m: Vec<(String, Json)> = Vec::new();
    m.push(("script".to_owned(), Json::text(command)));
    proof {
        lemma_object_model(m);
        assert(members_model(m@) =~= seq![("script"@, JsonModel::Str(command@))]);
    }
    Json::Object(m)
}

pub(crate) fn container_data(image: &str, step_id: &str) -> (r: Json)
    ensures
        r@ == container_payload(image@, step_id@),
{
    let mut m: Vec<(String, Json)> = Vec::new();
    m.push(("image".to_owned(), Json::text(image)));
    m.push(("step_id".to_owned(), Json::text(step_id)));
    proof {
        lemma_object_model(m);
        assert(members_model(m@) =~= seq![
            ("image"@, JsonModel::Str(image@)),
            ("step_id"@, JsonModel::Str(step_id@)),
        ]);
    }
    Json::Object(m)
}

pub(crate) fn empty_data() -> (r: Json)
    ensures
        r@ == empty_payload(),
{
    let m: Vec<(String, Json)> = Vec::new();
    proof {
        lemma_object_model(m);
        assert(members_model(m@) =~= Seq::empty());
    }
    Json::Object(m)
}

/// The command of a container step: one JSON string per argument.
pub open spec fn command_model(args: Seq<&str>) -> JsonModel {
    JsonModel::Array(Seq::new(args.len(), |i: int| JsonModel::Str(args[i]@)))
}

pub(crate) fn command_json(args: &[&str]) -> (r: Json)
    ensures
        r@ == command_model(args@),
{
    let mut out: Vec<Json> = Vec::new();
    let mut i: usize = 0;
    while i < args.len()
        invariant
            i <= args@.len(),
            out@.len() == i,
            forall|j: int| 0 <= j < i ==> out@[j]@ == JsonModel::Str(args@[j]@),
        decreases args@.len() - i,
    {
        out.push(Json::text(args[i]));
        i = i + 1;
    }
    proof {
        crate::json::lemma_array_model(out);
        assert(Seq::new(out@.len(), |j: int| out@[j]@) =~= Seq::new(
            args@.len(),
            |j: int| JsonModel::Str(args@[j]@),
        ));
    }
    Json::Array(out)
}

/// Whether `step` goes by `id`.
// --- LLM workflow kinds ---

/// The kinds of LLM workflow a step can run.
#[derive(Debug, Clone, Copy, PartialEq, Eq, Structural)]
pub enum LLMWorkflowTypes {
    Generic,
    PromptChain,
    Routing,
    Orchestrator,
    Agent,
    EvaluationOptimization,
}

impl LLMWorkflowTypes {
    /// The name the service knows this kind by.
    pub open spec fn label(&self) -> Seq<char> {
        match self {
            LLMWorkflowTypes::Generic => "generic"@,
            LLMWorkflowTypes::PromptChain => "prompt_chain"@,
            LLMWorkflowTypes::Routing => "routing"@,
            LLMWorkflowTypes::Orchestrator => "orchestrator"@,
            LLMWorkflowTypes::Agent => "agent_executor"@,
            LLMWorkflowTypes::EvaluationOptimization => "evaluator_optimizer"@,
        }
    }

    pub fn to_string(&self) -> (r: String)
        ensures
            r@ == self.label(),
    {
        match self {
            LLMWorkflowTypes::Generic => "generic".to_owned(),
            LLMWorkflowTypes::PromptChain => "prompt_chain".to_owned(),
            LLMWorkflowTypes::Routing => "routing".to_owned(),
            LLMWorkflowTypes::Orchestrator => "orchestrator".to_owned(),
            LLMWorkflowTypes::Agent => "agent_executor".to_owned(),
            LLMWorkflowTypes::EvaluationOptimization => "evaluator_optimizer".to_owned(),
        }
    }
}

} // verus!
