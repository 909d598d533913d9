use helios_client::create_pipeline::create_pipeline as create;
use helios_client::dsl::{ActionType, CreatePipelineBuilder, Pipeline, PipelineBuilder, Step};
use helios_client::json::Json;
use helios_client::run_pipeline::run_pipeline as run;

fn s(t: &str) -> Json {
    Json::String(t.to_string())
}

#[test]
fn kind_tags_are_fixed() {
    let cases = [
        (ActionType::Webhook, "WEBHOOK"),
        (ActionType::Script, "SCRIPT"),
        (ActionType::NimbusContainer, "NIMBUS_CONTAINER"),
        (ActionType::Event, "EVENT"),
        (ActionType::LlmWorkflow, "LLM_WORKFLOW"),
    ];
    for (k, tag) in cases {
        assert_eq!(run::ActionType::from(k).as_str(), tag);
        assert_eq!(create::ActionType::from(k).as_str(), tag);
    }
}

#[test]
fn wire_tags_read_back() {
    for tag in ["ACTION_TYPE_UNSPECIFIED", "WEBHOOK", "LLM_WORKFLOW", "EVENT", "NIMBUS_CONTAINER", "SCRIPT"] {
        let r = run::ActionType::from_tag(tag);
        assert!(!matches!(r, run::ActionType::Other(_)));
        assert_eq!(r.as_str(), tag);
        let c = create::ActionType::from_tag(tag);
        assert!(!matches!(c, create::ActionType::Other(_)));
        assert_eq!(c.as_str(), tag);
    }
    assert_eq!(run::ActionType::from_tag("WEBHOOK"), run::ActionType::WEBHOOK);
    assert_eq!(create::ActionType::from_tag("SCRIPT"), create::ActionType::SCRIPT);
}

#[test]
fn unknown_wire_tag_is_kept() {
    let r = run::ActionType::from_tag("QUANTUM");
    assert_eq!(r, run::ActionType::Other("QUANTUM".to_string()));
    assert_eq!(r.as_str(), "QUANTUM");
    let c = create::ActionType::from_tag("webhook");
    assert_eq!(c, create::ActionType::Other("webhook".to_string()));
    assert_eq!(create::ActionType::from_tag("").as_str(), "");
}

#[test]
fn run_shape_round_trip() {
    let p = PipelineBuilder::new("flow")
        .webhook("w", "https://w/")
        .header("a", "b")
        .then()
        .script("s", "ls")
        .depends_on("w")
        .when("w.ok")
        .then()
        .output("s")
        .build();
    let kept = p.clone();
    let r = run::RunPipelineInput::from_pipeline(p);
    assert_eq!(r.name, kept.name);
    assert_eq!(r.outputs, kept.outputs);
    assert_eq!(r.steps.len(), kept.steps.len());
    for (i, st) in r.steps.iter().zip(kept.steps.iter()) {
        assert_eq!(Some(i.id.clone()), st.id);
        assert_eq!(i.name, st.name);
        assert_eq!(i.key, st.key);
        assert_eq!(i.data, st.data);
        assert_eq!(i.target, st.target);
        assert_eq!(i.depends_on, st.depends_on);
        assert_eq!(i.expression, st.expression);
    }
    assert_eq!(r.steps[0].type_, run::ActionType::WEBHOOK);
    assert_eq!(r.steps[1].type_, run::ActionType::SCRIPT);
}

#[test]
fn run_shape_resolves_missing_id_to_name() {
    let step = Step {
        id: None,
        name: "by-name".to_string(),
        key: "k".to_string(),
        type_: ActionType::Event,
        data: Json::Null,
        target: Some("t".to_string()),
        depends_on: None,
        expression: None,
    };
    let i = run::StepInput::from(step);
    assert_eq!(i.id, "by-name");
    assert_eq!(i.name, "by-name");
    assert_eq!(i.key, "k");
    assert_eq!(i.type_, run::ActionType::EVENT);
    assert_eq!(i.target.as_deref(), Some("t"));
}

#[test]
fn create_shape_keeps_trigger_and_drops_outputs() {
    let p = CreatePipelineBuilder::new("reg")
        .trigger("webhook:abc")
        .script("s", "ls")
        .then()
        .output("s")
        .build();
    let c = create::CreatePipelineInput::from_pipeline(p);
    assert_eq!(c.name, "reg");
    assert_eq!(c.trigger, "webhook:abc");
    assert_eq!(c.steps.len(), 1);
    assert_eq!(c.steps[0].name, "s");
    assert_eq!(c.steps[0].type_, create::ActionType::SCRIPT);
    assert_eq!(c.steps[0].data, Json::Object(vec![("script".to_string(), s("ls"))]));
}

#[test]
fn create_shape_defaults_trigger_to_manual() {
    let p = Pipeline { name: "n".to_string(), trigger: None, steps: vec![], outputs: vec![] };
    let c = create::CreatePipelineInput::from_pipeline(p);
    assert_eq!(c.trigger, "manual");
    assert!(c.steps.is_empty());
}

#[test]
fn operation_names() {
    assert_eq!(run::OPERATION_NAME, "RunPipeline");
    assert_eq!(create::OPERATION_NAME, "CreatePipeline");
    assert!(run::QUERY.contains("mutation RunPipeline($pipeline: RunPipelineInput!)"));
    assert!(create::QUERY.contains("mutation CreatePipeline($pipeline: CreatePipelineInput!)"));
}
