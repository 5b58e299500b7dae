//! The catalogue of tool calls, and the decisions a client makes around each
//! request to the engine. Sending requests is left to the caller: it asks for
//! the request to send, sends it, and hands the outcome back.
use vstd::prelude::*;
use crate::bindings::{array_of, bool_of, document_of, empty_object, member, string_of};

verus! {

/// Name of the operation that runs a workflow.
pub const EXECUTE_WORKFLOW: &'static str = "execute_workflow";

/// Name of the operation that creates a workflow.
pub const CREATE_WORKFLOW: &'static str = "create_workflow_from_context";

/// Name of the operation that lists the engine's workflows.
pub const LIST_WORKFLOWS: &'static str = "list_workflows";

/// Name of the operation that returns the ledger's records.
pub const GET_EXECUTION_HISTORY: &'static str = "get_execution_history";

/// Header that carries the API key.
pub const API_KEY_HEADER: &'static str = "X-N8N-API-KEY";

/// Key of the query pair added to an execution that is waited for.
pub const WAIT_QUERY_KEY: &'static str = "waitTill";

/// Value of the query pair added to an execution that is waited for.
pub const WAIT_QUERY_VALUE: &'static str = "completed";

/// Field of the engine's answer that names a new execution.
pub const EXECUTION_ID_FIELD: &'static str = "executionId";

/// Execution order written into the settings of a new workflow.
pub const EXECUTION_ORDER: &'static str = "v1";

/// Author written into the metadata of a new workflow.
pub const CREATED_BY: &'static str = "goose_agent";

/// Why a tool call failed.
#[derive(Debug)]
pub enum ToolError {
    /// A required argument, named here, is missing or of the wrong kind.
    InvalidArgument(String),
    /// The engine could not be reached, refused the request, or answered with
    /// something that is not a document; the text says which.
    RemoteCallError(String),
    /// No operation has the name given here.
    UnknownOperation(String),
}

/// The text shown for an error.
pub open spec fn error_text(e: ToolError) -> Seq<char> {
    match e {
        ToolError::InvalidArgument(field) => field@ + " is required"@,
        ToolError::RemoteCallError(detail) => detail@,
        ToolError::UnknownOperation(name) => "Unknown tool: "@ + name@,
    }
}

/// `r` failed for want of the argument `field`.
pub open spec fn missing_argument<T>(r: Result<T, ToolError>, field: Seq<char>) -> bool {
    match r {
        Err(ToolError::InvalidArgument(f)) => f@ == field,
        _ => false,
    }
}

/// `r` failed with a remote-call error whose text is `detail`.
pub open spec fn remote_failure<T>(r: Result<T, ToolError>, detail: Seq<char>) -> bool {
    match r {
        Err(ToolError::RemoteCallError(d)) => d@ == detail,
        _ => false,
    }
}

impl ToolError {
    /// The text shown for this error.
    pub fn message(&self) -> (r: String)
        ensures
            r@ == error_text(*self),
    {
        match self {
            ToolError::InvalidArgument(field) => {
                let mut s = field.clone();
                s.append(" is required");
                s
            },
            ToolError::RemoteCallError(detail) => detail.clone(),
            ToolError::UnknownOperation(name) => {
                let mut s = String::from_str("Unknown tool: ");
                s.append(name.as_str());
                s
            },
        }
    }
}

/// The arguments of a tool call that the operations read. A field is `None`
/// where the call's argument object lacks it or holds a value of another kind.
pub struct ToolArgs {
    pub workflow_id: Option<String>,
    pub input_data: Option<serde_json::Value>,
    pub wait_for_completion: Option<bool>,
    pub name: Option<String>,
    pub description: Option<String>,
    pub nodes: Option<Vec<serde_json::Value>>,
}

fn string_member(args: &serde_json::Value, key: &str) -> (r: Option<String>) {
    match member(args, key) {
        Some(v) => string_of(&v),
        None => None,
    }
}

impl ToolArgs {
    /// Reads the fields from a call's argument object.
    pub fn from_json(args: &serde_json::Value) -> (r: ToolArgs) {
        let wait = match member(args, "wait_for_completion") {
            Some(v) => bool_of(&v),
            None => None,
        };
        let nodes = match member(args, "nodes") {
            Some(v) => array_of(&v),
            None => None,
        };
        ToolArgs {
            workflow_id: string_member(args, "workflow_id"),
            input_data: member(args, "input_data"),
            wait_for_completion: wait,
            name: string_member(args, "name"),
            description: string_member(args, "description"),
            nodes,
        }
    }
}

/// A checked tool call.
pub enum Operation {
    ExecuteWorkflow { workflow_id: String, input_data: serde_json::Value, wait_for_completion: bool },
    CreateWorkflow { name: String, description: String, nodes: Vec<serde_json::Value> },
    ListWorkflows,
    GetExecutionHistory,
}

/// Checks a call of the operation `tool_name` and picks out its arguments.
/// Optional arguments take their defaults: the input `{}`, waiting for
/// completion, and the empty description. Nothing is sent on a failure.
pub fn plan_call(tool_name: &str, args: ToolArgs) -> (r: Result<Operation, ToolError>)
    ensures
        tool_name@ == EXECUTE_WORKFLOW@ ==> match args.workflow_id {
            None => missing_argument(r, "workflow_id"@),
            Some(id) => r matches Ok(Operation::ExecuteWorkflow { workflow_id, input_data, wait_for_completion })
                && workflow_id == id
                && wait_for_completion == (match args.wait_for_completion {
                    Some(w) => w,
                    None => true,
                })
                && input_data == (match args.input_data {
                    Some(v) => v,
                    None => document_of("{}"@),
                }),
        },
        tool_name@ == CREATE_WORKFLOW@ ==> match (args.name, args.nodes) {
            (None, _) => missing_argument(r, "name"@),
            (Some(_), None) => missing_argument(r, "nodes"@),
            (Some(n), Some(ns)) => r matches Ok(Operation::CreateWorkflow { name, description, nodes })
                && name == n
                && nodes == ns
                && description@ == (match args.description {
                    Some(d) => d@,
                    None => Seq::<char>::empty(),
                }),
        },
        tool_name@ == LIST_WORKFLOWS@ ==> r matches Ok(Operation::ListWorkflows),
        tool_name@ == GET_EXECUTION_HISTORY@ ==> r matches Ok(Operation::GetExecutionHistory),
        tool_name@ != EXECUTE_WORKFLOW@ && tool_name@ != CREATE_WORKFLOW@ && tool_name@
            != LIST_WORKFLOWS@ && tool_name@ != GET_EXECUTION_HISTORY@ ==> (r matches Err(
            ToolError::UnknownOperation(n),
        ) && n@ == tool_name@),
{
    proof {
        reveal_strlit("execute_workflow");
        reveal_strlit("create_workflow_from_context");
        reveal_strlit("list_workflows");
        reveal_strlit("get_execution_history");
        assert(EXECUTE_WORKFLOW@.len() == 16);
        assert(CREATE_WORKFLOW@.len() == 28);
        assert(LIST_WORKFLOWS@.len() == 14);
        assert(GET_EXECUTION_HISTORY@.len() == 21);
    }
    let t = String::from_str(tool_name);
    if t == String::from_str(EXECUTE_WORKFLOW) {
        match args.workflow_id {
            None => Err(ToolError::InvalidArgument(String::from_str("workflow_id"))),
            Some(id) => {
                let input = match args.input_data {
                    Some(v) => v,
                    None => empty_object(),
                };
                let wait = match args.wait_for_completion {
                    Some(w) => w,
                    None => true,
                };
                Ok(Operation::ExecuteWorkflow { workflow_id: id, input_data: input, wait_for_completion: wait })
            },
        }
    } else if t == String::from_str(CREATE_WORKFLOW) {
        match args.name {
            None => Err(ToolError::InvalidArgument(String::from_str("name"))),
            Some(n) => match args.nodes {
                None => Err(ToolError::InvalidArgument(String::from_str("nodes"))),
                Some(ns) => {
                    let d = match args.description {
                        Some(d) => d,
                        None => String::new(),
                    };
                    Ok(Operation::CreateWorkflow { name: n, description: d, nodes: ns })
                },
            },
        }
    } else if t == String::from_str(LIST_WORKFLOWS) {
        Ok(Operation::ListWorkflows)
    } else if t == String::from_str(GET_EXECUTION_HISTORY) {
        Ok(Operation::GetExecutionHistory)
    } else {
        Err(ToolError::UnknownOperation(t))
    }
}

} // verus!
