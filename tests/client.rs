use helios_client::dsl::{CreatePipelineBuilder, PipelineBuilder};
use helios_client::{
    create_pipeline_variables, graphql_result, http_status_error, run_pipeline_variables,
    HeliosClientError,
};

fn gql_error(message: &str) -> graphql_client::Error {
    graphql_client::Error {
        message: message.to_string(),
        locations: None,
        path: None,
        extensions: None,
    }
}

#[test]
fn run_path_refuses_trigger() {
    let p = CreatePipelineBuilder::new("p").trigger("x").script("a", "ls").then().build();
    match run_pipeline_variables(p) {
        Err(HeliosClientError::GenericError(m)) => {
            assert_eq!(m, "Pipelines with triggers must be created, not run directly.")
        }
        _ => panic!("expected a refusal"),
    }
}

#[test]
fn create_path_refuses_missing_trigger() {
    let p = PipelineBuilder::new("p").script("a", "ls").then().build();
    match create_pipeline_variables(p) {
        Err(HeliosClientError::GenericError(m)) => {
            assert_eq!(m, "Pipelines without triggers must be run directly, not created.")
        }
        _ => panic!("expected a refusal"),
    }
}

#[test]
fn run_path_accepts_pipeline_without_trigger() {
    let p = PipelineBuilder::new("p").script("a", "ls").then().output("a").build();
    let v = run_pipeline_variables(p).ok().unwrap();
    assert_eq!(v.pipeline.name, "p");
    assert_eq!(v.pipeline.steps.len(), 1);
    assert_eq!(v.pipeline.steps[0].id, "a");
    assert_eq!(v.pipeline.outputs, vec!["a".to_string()]);
}

#[test]
fn create_path_accepts_pipeline_with_trigger() {
    let p = CreatePipelineBuilder::new("p").trigger("cron").script("a", "ls").then().build();
    let v = create_pipeline_variables(p).ok().unwrap();
    assert_eq!(v.pipeline.trigger, "cron");
    assert_eq!(v.pipeline.steps[0].name, "a");
}

#[test]
fn status_error_message() {
    match http_status_error("500 Internal Server Error", Some("boom".to_string())) {
        HeliosClientError::GenericError(m) => {
            assert_eq!(m, "HTTP error: 500 Internal Server Error - boom")
        }
        _ => panic!("expected a described error"),
    }
    match http_status_error("404 Not Found", None) {
        HeliosClientError::GenericError(m) => {
            assert_eq!(m, "HTTP error: 404 Not Found - Failed to read error body")
        }
        _ => panic!("expected a described error"),
    }
}

#[test]
fn answer_with_errors() {
    let r = graphql_result(Some(vec![gql_error("bad")]), Some(1u8));
    match r {
        Err(HeliosClientError::GraphQL(e)) => {
            assert_eq!(e.len(), 1);
            assert_eq!(e[0].message, "bad");
        }
        _ => panic!("expected the answer's errors"),
    }
}

#[test]
fn answer_with_data() {
    assert_eq!(graphql_result(None, Some(7u8)).ok(), Some(7u8));
}

#[test]
fn answer_without_data() {
    assert!(matches!(graphql_result::<u8>(None, None), Err(HeliosClientError::NoData)));
}

#[test]
fn empty_error_list_still_fails() {
    assert!(matches!(
        graphql_result(Some(vec![]), Some(1u8)),
        Err(HeliosClientError::GraphQL(e)) if e.is_empty()
    ));
}
