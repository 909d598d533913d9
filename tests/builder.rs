use helios_client::dsl::{
    ActionType, BuilderDiagnostic, CreatePipelineBuilder, LLMWorkflowTypes, PipelineBuilder,
};
use helios_client::json::{decimal_text, Json};

fn s(t: &str) -> Json {
    Json::String(t.to_string())
}

fn obj(members: Vec<(&str, Json)>) -> Json {
    Json::Object(members.into_iter().map(|(k, v)| (k.to_string(), v)).collect())
}

#[test]
fn webhook_example() {
    let p = PipelineBuilder::new("p")
        .webhook("ping", "https://x/")
        .method("POST")
        .header("Authorization", "Bearer t")
        .then()
        .build();
    assert_eq!(p.steps.len(), 1);
    let step = &p.steps[0];
    assert_eq!(step.type_, ActionType::Webhook);
    assert_eq!(step.id.as_deref(), Some("ping"));
    assert_eq!(step.name, "ping");
    assert_eq!(step.key, "ping");
    assert_eq!(
        step.data,
        obj(vec![
            ("url", s("https://x/")),
            ("method", s("POST")),
            ("headers", obj(vec![("Authorization", s("Bearer t"))])),
        ])
    );
}

#[test]
fn container_example() {
    let p = PipelineBuilder::new("p")
        .container("c1", "alpine")
        .with_args(&["echo", "hi"])
        .with_volume("/host", "/cont")
        .then()
        .build();
    assert_eq!(p.steps[0].type_, ActionType::NimbusContainer);
    assert_eq!(
        p.steps[0].data,
        obj(vec![
            ("image", s("alpine")),
            ("step_id", s("c1")),
            ("command", Json::Array(vec![s("echo"), s("hi")])),
            (
                "volumes",
                Json::Array(vec![obj(vec![
                    ("host_path", s("/host")),
                    ("container_path", s("/cont")),
                    ("read_only", Json::Bool(false)),
                ])])
            ),
        ])
    );
}

#[test]
fn llm_example() {
    let p = PipelineBuilder::new("p")
        .llm_workflow("w")
        .prompt("hi")
        .workflow_type(&LLMWorkflowTypes::Agent)
        .then()
        .build();
    let step = &p.steps[0];
    assert_eq!(step.type_, ActionType::LlmWorkflow);
    assert_eq!(step.data, obj(vec![("prompt", s("hi"))]));
    assert_eq!(step.target.as_deref(), Some("agent_executor"));
}

#[test]
fn step_count_ignores_setters() {
    let p = PipelineBuilder::new("p")
        .script("a", "echo a")
        .when("true")
        .depends_on("x")
        .then()
        .webhook("b", "https://b/")
        .method("PUT")
        .header("k", "v")
        .body(Json::Null)
        .then()
        .output("a")
        .container("c", "img")
        .timeout(5)
        .platform("linux/amd64")
        .then()
        .llm_workflow("d")
        .prompt("p")
        .then()
        .build();
    assert_eq!(p.steps.len(), 4);
    let ids: Vec<_> = p.steps.iter().map(|s| s.id.clone().unwrap()).collect();
    assert_eq!(ids, vec!["a", "b", "c", "d"]);
}

#[test]
fn build_pushes_step_without_then() {
    let p = PipelineBuilder::new("p").script("a", "ls").then().script("b", "pwd").then().build();
    assert_eq!(p.steps.len(), 2);
    let p = PipelineBuilder::new("p").script("a", "ls").then().build();
    assert_eq!(p.steps.len(), 1);
    let empty = PipelineBuilder::new("p").build();
    assert_eq!(empty.steps.len(), 0);
    assert_eq!(empty.name, "p");
    assert!(empty.trigger.is_none());
    assert!(empty.outputs.is_empty());
}

#[test]
fn next_step_freezes_previous_one() {
    let p = PipelineBuilder::new("p")
        .webhook("a", "https://a/")
        .then()
        .webhook("b", "https://b/")
        .method("DELETE")
        .header("h", "1")
        .depends_on("a")
        .when("x > 1")
        .then()
        .build();
    assert_eq!(p.steps[0].data, obj(vec![("url", s("https://a/")), ("method", s("GET"))]));
    assert!(p.steps[0].depends_on.is_none());
    assert!(p.steps[0].expression.is_none());
    assert_eq!(p.steps[1].depends_on.as_deref(), Some("a"));
    assert_eq!(p.steps[1].expression.as_deref(), Some("x > 1"));
}

#[test]
fn output_is_idempotent_and_ordered() {
    let b = PipelineBuilder::new("p")
        .script("a", "ls")
        .then()
        .script("b", "ls")
        .then()
        .output("b")
        .output("a")
        .output("b")
        .output("b");
    assert!(b.diagnostics().is_empty());
    let p = b.build();
    assert_eq!(p.outputs, vec!["b".to_string(), "a".to_string()]);
}

#[test]
fn unknown_output_is_kept_and_noted() {
    let b = PipelineBuilder::new("p").output("later").output("later");
    assert_eq!(
        b.diagnostics(),
        &vec![
            BuilderDiagnostic::UnknownOutputStep("later".to_string()),
            BuilderDiagnostic::UnknownOutputStep("later".to_string()),
        ]
    );
    let p = b.script("later", "ls").then().build();
    assert_eq!(p.outputs, vec!["later".to_string()]);
    assert_eq!(p.steps.len(), 1);
}

#[test]
fn output_of_step_under_configuration_is_known() {
    let b = PipelineBuilder::new("p").script("a", "ls").then();
    let b = b.output("a");
    assert!(b.diagnostics().is_empty());
}

#[test]
fn header_and_method_last_write_wins() {
    let p = PipelineBuilder::new("p")
        .webhook("w", "https://w/")
        .header("k", "1")
        .header("j", "2")
        .header("k", "3")
        .method("POST")
        .method("PATCH")
        .then()
        .build();
    assert_eq!(
        p.steps[0].data,
        obj(vec![
            ("url", s("https://w/")),
            ("method", s("PATCH")),
            ("headers", obj(vec![("k", s("3")), ("j", s("2"))])),
        ])
    );
}

#[test]
fn body_replaces_previous_body() {
    let p = PipelineBuilder::new("p")
        .webhook("w", "https://w/")
        .body(obj(vec![("a", Json::Number("1".to_string()))]))
        .body(Json::Array(vec![Json::Bool(true), Json::Null]))
        .then()
        .build();
    assert_eq!(
        p.steps[0].data,
        obj(vec![
            ("url", s("https://w/")),
            ("method", s("GET")),
            ("body", Json::Array(vec![Json::Bool(true), Json::Null])),
        ])
    );
}

#[test]
fn container_setters() {
    let p = PipelineBuilder::new("p")
        .container("c", "img")
        .with_args(&[])
        .with_volume("/a", "/b")
        .with_volume("/c", "/d")
        .platform("linux/arm64")
        .timeout(30)
        .working_dir("/work")
        .with_args(&["run"])
        .then()
        .build();
    let vol = |h: &str, c: &str| {
        obj(vec![
            ("host_path", s(h)),
            ("container_path", s(c)),
            ("read_only", Json::Bool(false)),
        ])
    };
    assert_eq!(
        p.steps[0].data,
        obj(vec![
            ("image", s("img")),
            ("step_id", s("c")),
            ("command", Json::Array(vec![s("run")])),
            ("volumes", Json::Array(vec![vol("/a", "/b"), vol("/c", "/d")])),
            ("platform", s("linux/arm64")),
            ("timeout", Json::Number("30".to_string())),
            ("working_dir", s("/work")),
        ])
    );
}

#[test]
fn timeout_extremes() {
    let p = PipelineBuilder::new("p")
        .container("c", "img")
        .timeout(0)
        .then()
        .container("d", "img")
        .timeout(u64::MAX)
        .then()
        .build();
    assert_eq!(p.steps[0].data, obj(vec![
        ("image", s("img")),
        ("step_id", s("c")),
        ("timeout", Json::Number("0".to_string())),
    ]));
    assert_eq!(p.steps[1].data, obj(vec![
        ("image", s("img")),
        ("step_id", s("d")),
        ("timeout", Json::Number("18446744073709551615".to_string())),
    ]));
}

#[test]
fn script_and_llm_defaults() {
    let p = PipelineBuilder::new("p")
        .script("s", "echo hi")
        .then()
        .llm_workflow("l")
        .then()
        .build();
    assert_eq!(p.steps[0].type_, ActionType::Script);
    assert_eq!(p.steps[0].data, obj(vec![("script", s("echo hi"))]));
    assert_eq!(p.steps[1].data, obj(vec![]));
    assert!(p.steps[1].target.is_none());
}

#[test]
fn workflow_type_names() {
    let cases = [
        (LLMWorkflowTypes::Generic, "generic"),
        (LLMWorkflowTypes::PromptChain, "prompt_chain"),
        (LLMWorkflowTypes::Routing, "routing"),
        (LLMWorkflowTypes::Orchestrator, "orchestrator"),
        (LLMWorkflowTypes::Agent, "agent_executor"),
        (LLMWorkflowTypes::EvaluationOptimization, "evaluator_optimizer"),
    ];
    for (t, name) in cases {
        assert_eq!(t.to_string(), name);
    }
}

#[test]
fn create_builder_pushes_steps_at_once() {
    let p = CreatePipelineBuilder::new("nightly")
        .trigger("cron")
        .webhook("hook", "https://h/")
        .method("POST")
        .then()
        .script("s", "ls")
        .depends_on("hook")
        .then()
        .container("c", "img")
        .with_args(&["a"])
        .then()
        .llm_workflow("l")
        .prompt("go")
        .workflow_type(&LLMWorkflowTypes::Routing)
        .then()
        .build();
    assert_eq!(p.trigger.as_deref(), Some("cron"));
    assert_eq!(p.steps.len(), 4);
    assert!(p.steps.iter().all(|s| s.id.is_none()));
    assert_eq!(p.steps[0].data, obj(vec![("url", s("https://h/")), ("method", s("POST"))]));
    assert_eq!(p.steps[1].depends_on.as_deref(), Some("hook"));
    assert_eq!(
        p.steps[2].data,
        obj(vec![("image", s("img")), ("step_id", s("c")), ("command", Json::Array(vec![s("a")]))])
    );
    assert_eq!(p.steps[3].target.as_deref(), Some("routing"));
}

#[test]
fn create_builder_freezes_earlier_steps() {
    let b = CreatePipelineBuilder::new("p")
        .webhook("a", "https://a/")
        .then()
        .webhook("b", "https://b/")
        .method("POST")
        .when("ok")
        .then();
    assert_eq!(b.steps[0].data, obj(vec![("url", s("https://a/")), ("method", s("GET"))]));
    assert!(b.steps[0].expression.is_none());
    assert_eq!(b.steps[1].expression.as_deref(), Some("ok"));
}

#[test]
fn create_builder_outputs() {
    let b = CreatePipelineBuilder::new("p")
        .script("a", "ls")
        .then()
        .output("a")
        .output("a")
        .output("z");
    assert_eq!(b.outputs, vec!["a".to_string(), "z".to_string()]);
    assert_eq!(b.diagnostics, vec![BuilderDiagnostic::UnknownOutputStep("z".to_string())]);
}

#[test]
fn json_copy_is_equal() {
    let v = obj(vec![
        ("a", Json::Array(vec![Json::Null, Json::Bool(true), Json::Number("-1.5".to_string())])),
        ("b", obj(vec![("c", s("d"))])),
    ]);
    assert_eq!(v.deep_copy(), v);
    assert_eq!(v.clone(), v);
}

#[test]
fn decimal_text_values() {
    assert_eq!(decimal_text(0), "0");
    assert_eq!(decimal_text(7), "7");
    assert_eq!(decimal_text(10), "10");
    assert_eq!(decimal_text(1234567890), "1234567890");
    assert_eq!(decimal_text(u64::MAX), "18446744073709551615");
}
