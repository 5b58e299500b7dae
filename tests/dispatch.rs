use n8n_native::{
    check_response, decode_answer, execution_id_of, finish_request, list_tools, plan_call,
    render_result, text_or_empty, HttpMethod, HttpOutcome, N8nConfig, N8nNativeClient, Operation, ParamKind,
    RemoteOp, RequestBody, ToolArgs, ToolError, DEFAULT_API_URL,
};

fn doc(text: &str) -> serde_json::Value {
    serde_json::from_str(text).unwrap()
}

fn args(text: &str) -> ToolArgs {
    ToolArgs::from_json(&doc(text))
}

fn client() -> N8nNativeClient {
    N8nNativeClient::new(N8nConfig::from_settings(
        Some("http://engine:5678/api/v1".to_string()),
        Some("secret".to_string()),
    ))
}

fn answered(status: u16, body: &str) -> HttpOutcome {
    HttpOutcome::Answered { status, body: body.to_string() }
}

#[test]
fn execute_without_workflow_id_is_refused() {
    let r = plan_call("execute_workflow", args(r#"{"input_data": {"a": 1}}"#));
    match r {
        Err(ToolError::InvalidArgument(f)) => assert_eq!(f, "workflow_id"),
        _ => panic!("expected an invalid argument"),
    }
}

#[test]
fn execute_with_non_string_workflow_id_is_refused() {
    let r = plan_call("execute_workflow", args(r#"{"workflow_id": 7}"#));
    assert!(matches!(r, Err(ToolError::InvalidArgument(f)) if f == "workflow_id"));
}

#[test]
fn execute_takes_defaults() {
    match plan_call("execute_workflow", args(r#"{"workflow_id": "wf1"}"#)) {
        Ok(Operation::ExecuteWorkflow { workflow_id, input_data, wait_for_completion }) => {
            assert_eq!(workflow_id, "wf1");
            assert_eq!(input_data, doc("{}"));
            assert!(wait_for_completion);
        }
        _ => panic!("expected an execution"),
    }
}

#[test]
fn execute_keeps_given_arguments() {
    let a = args(r#"{"workflow_id": "wf1", "input_data": {"k": [1, 2]}, "wait_for_completion": false}"#);
    match plan_call("execute_workflow", a) {
        Ok(Operation::ExecuteWorkflow { workflow_id, input_data, wait_for_completion }) => {
            assert_eq!(workflow_id, "wf1");
            assert_eq!(input_data, doc(r#"{"k": [1, 2]}"#));
            assert!(!wait_for_completion);
        }
        _ => panic!("expected an execution"),
    }
}

#[test]
fn create_without_nodes_names_nodes() {
    let r = plan_call("create_workflow_from_context", args(r#"{"name": "daily"}"#));
    match r {
        Err(e @ ToolError::InvalidArgument(_)) => {
            assert!(matches!(&e, ToolError::InvalidArgument(f) if f == "nodes"));
            assert_eq!(e.message(), "nodes is required");
        }
        _ => panic!("expected an invalid argument"),
    }
}

#[test]
fn create_without_name_names_name() {
    let r = plan_call("create_workflow_from_context", args(r#"{"nodes": []}"#));
    assert!(matches!(r, Err(ToolError::InvalidArgument(f)) if f == "name"));
}

#[test]
fn create_takes_empty_description_by_default() {
    let r = plan_call("create_workflow_from_context", args(r#"{"name": "daily", "nodes": [{"t": 1}]}"#));
    match r {
        Ok(Operation::CreateWorkflow { name, description, nodes }) => {
            assert_eq!(name, "daily");
            assert_eq!(description, "");
            assert_eq!(nodes, vec![doc(r#"{"t": 1}"#)]);
        }
        _ => panic!("expected a creation"),
    }
}

#[test]
fn unknown_operation_is_named() {
    let r = plan_call("delete_everything", args("{}"));
    match r {
        Err(e @ ToolError::UnknownOperation(_)) => {
            assert!(matches!(&e, ToolError::UnknownOperation(n) if n == "delete_everything"));
            assert_eq!(e.message(), "Unknown tool: delete_everything");
        }
        _ => panic!("expected an unknown operation"),
    }
}

#[test]
fn list_and_history_need_no_arguments() {
    assert!(matches!(plan_call("list_workflows", args("{}")), Ok(Operation::ListWorkflows)));
    assert!(matches!(
        plan_call("get_execution_history", args("{}")),
        Ok(Operation::GetExecutionHistory)
    ));
}

#[test]
fn remote_500_fails_and_leaves_ledger_unchanged() {
    let mut c = client();
    let r = c.finish_execute("wf1", answered(500, "boom"));
    match r {
        Err(ToolError::RemoteCallError(d)) => assert_eq!(d, "Workflow execution failed: boom"),
        _ => panic!("expected a remote-call error"),
    }
    assert!(c.get_execution_history().is_empty());
}

#[test]
fn remote_answer_with_execution_id_is_recorded() {
    let mut c = client();
    c.set_session(Some("conv-1".to_string()));
    let r = c.finish_execute("wf1", answered(200, r#"{"executionId": "abc123"}"#));
    assert_eq!(r.unwrap(), doc(r#"{"executionId": "abc123"}"#));
    let h = c.get_execution_history();
    assert_eq!(h.len(), 1);
    assert_eq!(h[0].execution_id, "abc123");
    assert_eq!(h[0].workflow_id, "wf1");
    assert_eq!(h[0].status, n8n_native::ExecutionStatus::Running);
    assert_eq!(h[0].triggered_by_conversation, Some("conv-1".to_string()));
}

#[test]
fn two_successes_give_two_records() {
    let mut c = client();
    c.finish_execute("wf1", answered(200, r#"{"executionId": "x1"}"#)).unwrap();
    c.finish_execute("wf2", answered(201, r#"{"executionId": "x2"}"#)).unwrap();
    let h = c.get_execution_history();
    assert_eq!(h.len(), 2);
    assert_eq!(h[0].execution_id, "x1");
    assert_eq!(h[1].execution_id, "x2");
}

#[test]
fn answer_without_execution_id_records_nothing() {
    let mut c = client();
    let r = c.finish_execute("wf1", answered(200, r#"{"data": 1}"#));
    assert!(r.is_ok());
    assert!(c.get_execution_history().is_empty());
}

#[test]
fn tracking_off_records_nothing() {
    let mut config = N8nConfig::default();
    config.enable_execution_tracking = false;
    let mut c = N8nNativeClient::new(config);
    c.finish_execute("wf1", answered(200, r#"{"executionId": "abc"}"#)).unwrap();
    assert!(c.get_execution_history().is_empty());
}

#[test]
fn transport_failure_and_bad_body_are_remote_errors() {
    let mut c = client();
    let r = c.finish_execute("wf1", HttpOutcome::Failed { error: "timed out".to_string() });
    assert!(matches!(r, Err(ToolError::RemoteCallError(d)) if d == "Failed to execute workflow: timed out"));
    let r = c.finish_execute("wf1", answered(200, "not json"));
    assert!(matches!(r, Err(ToolError::RemoteCallError(d)) if d.starts_with("Failed to parse response: ")));
    assert!(c.get_execution_history().is_empty());
}

#[test]
fn check_response_texts() {
    assert!(matches!(check_response(RemoteOp::Create, answered(404, "nope")),
        Err(ToolError::RemoteCallError(d)) if d == "Workflow creation failed: nope"));
    assert!(matches!(check_response(RemoteOp::List, answered(301, "")),
        Err(ToolError::RemoteCallError(d)) if d == "Failed to list workflows: "));
    assert!(matches!(check_response(RemoteOp::List, HttpOutcome::Failed { error: "x".to_string() }),
        Err(ToolError::RemoteCallError(d)) if d == "Failed to list workflows: x"));
    assert!(matches!(check_response(RemoteOp::Create, answered(299, "[]")), Ok(b) if b == "[]"));
    assert!(matches!(check_response(RemoteOp::Execute, answered(199, "")), Err(_)));
}

#[test]
fn finish_request_decodes_answers() {
    assert_eq!(finish_request(RemoteOp::List, answered(200, r#"{"data": []}"#)).unwrap(), doc(r#"{"data": []}"#));
    assert!(finish_request(RemoteOp::Create, answered(200, "{")).is_err());
    assert!(decode_answer("[1,2]").is_ok());
}

#[test]
fn execution_id_needs_a_string() {
    assert_eq!(execution_id_of(&doc(r#"{"executionId": "e5"}"#)), Some("e5".to_string()));
    assert_eq!(execution_id_of(&doc(r#"{"executionId": 5}"#)), None);
    assert_eq!(execution_id_of(&doc("[]")), None);
}

#[test]
fn render_result_is_indented() {
    assert_eq!(render_result(&doc(r#"{"a":1}"#)), "{\n  \"a\": 1\n}");
}

#[test]
fn requests_are_framed() {
    let c = client();
    let r = c.execute_request("wf1", doc("{}"), true);
    assert_eq!(r.method, HttpMethod::Post);
    assert_eq!(r.url, "http://engine:5678/api/v1/workflows/wf1/execute");
    assert_eq!(r.api_key, "secret");
    assert!(r.wait_till_completed);
    assert!(matches!(r.body, RequestBody::ExecutionInput { .. }));
    let r = c.create_request("n".to_string(), "d".to_string(), vec![]);
    assert_eq!(r.url, "http://engine:5678/api/v1/workflows");
    assert!(!r.wait_till_completed);
    match r.body {
        RequestBody::WorkflowDefinition { name, description, nodes, active, execution_order, created_by } => {
            assert_eq!(name, "n");
            assert_eq!(description, "d");
            assert!(nodes.is_empty());
            assert!(!active);
            assert_eq!(execution_order, "v1");
            assert_eq!(created_by, "goose_agent");
        }
        _ => panic!("expected a workflow definition"),
    }
    let r = c.list_request();
    assert_eq!(r.method, HttpMethod::Get);
    assert_eq!(r.url, "http://engine:5678/api/v1/workflows");
    assert!(matches!(r.body, RequestBody::Empty));
}

#[test]
fn config_defaults() {
    let c = N8nConfig::default();
    assert_eq!(c.api_url, DEFAULT_API_URL);
    assert_eq!(c.api_url, "http://localhost:5678/api/v1");
    assert_eq!(c.api_key, "");
    assert!(c.enable_workflow_creation && c.enable_execution_tracking);
    let c = N8nConfig::from_settings(Some("u".to_string()), None);
    assert_eq!(c.api_url, "u");
}

#[test]
fn catalogue_lists_four_operations() {
    let tools = list_tools();
    let names: Vec<&str> = tools.iter().map(|t| t.name.as_str()).collect();
    assert_eq!(names, vec!["execute_workflow", "create_workflow_from_context", "list_workflows", "get_execution_history"]);
    let required: Vec<&str> = tools[1].params.iter().filter(|p| p.required).map(|p| p.name.as_str()).collect();
    assert_eq!(required, vec!["name", "nodes"]);
    assert_eq!(tools[0].params[1].kind, ParamKind::Object);
    assert_eq!(tools[0].params[2].default_value, Some("true".to_string()));
}

#[test]
fn health_response_is_healthy() {
    let h = n8n_native::HealthResponse::healthy("1.2.3".to_string());
    assert_eq!(h.status, "healthy");
    assert_eq!(h.version, "1.2.3");
}

#[test]
fn text_or_empty_falls_back_to_empty() {
    assert_eq!(text_or_empty(Some("x".to_string())), "x");
    assert_eq!(text_or_empty(None), "");
}

#[test]
fn successful_answer_is_returned_unchanged_whatever_its_fields() {
    let mut c = client();
    let body = r#"{"executionId": "", "other": [1, {"b": null}]}"#;
    assert_eq!(c.finish_execute("wf1", answered(200, body)).unwrap(), doc(body));
    assert!(c.get_execution_history().is_empty());
    assert_eq!(finish_request(RemoteOp::Create, answered(201, body)).unwrap(), doc(body));
    assert!(matches!(finish_request(RemoteOp::List, answered(200, "oops")),
        Err(ToolError::RemoteCallError(d)) if d.starts_with("Failed to parse response: ")));
}

#[test]
fn catalogue_is_the_same_on_every_call() {
    let a = list_tools();
    let b = list_tools();
    assert_eq!(a.len(), b.len());
    for (x, y) in a.iter().zip(b.iter()) {
        assert_eq!(x.name, y.name);
        assert_eq!(x.description, y.description);
        assert_eq!(x.params.len(), y.params.len());
    }
    assert!(a[0].description.starts_with("Execute an n8n workflow"));
}
