//! The operations a client offers, with the arguments each one takes.
use vstd::prelude::*;
use crate::dispatch::{CREATE_WORKFLOW, EXECUTE_WORKFLOW, GET_EXECUTION_HISTORY, LIST_WORKFLOWS};

verus! {

/// What the operation that runs a workflow does.
pub const EXECUTE_DESCRIPTION: &'static str = "Execute an n8n workflow directly with low latency. Returns execution results and tracks the execution in agent context.";

/// What the operation that creates a workflow does.
pub const CREATE_DESCRIPTION: &'static str = "Create a new n8n workflow based on the current conversation context. The agent can use this to automate repetitive tasks discussed in the conversation.";

/// What the operation that lists workflows does.
pub const LIST_DESCRIPTION: &'static str = "List all available n8n workflows with their metadata.";

/// What the operation that reads the execution history does.
pub const HISTORY_DESCRIPTION: &'static str = "Get the execution history of workflows triggered during this conversation. Shows correlation between agent actions and workflow executions.";

/// The kind of value an argument holds.
#[derive(Debug, Clone, Copy, PartialEq, Eq, Structural)]
pub enum ParamKind {
    Text,
    Object,
    Boolean,
    Array,
}

/// One argument of an operation. `default_value` is the document text used
/// where the argument is left out.
pub struct ToolParam {
    pub name: String,
    pub kind: ParamKind,
    pub description: String,
    pub required: bool,
    pub default_value: Option<String>,
}

/// One operation of the catalogue.
pub struct ToolInfo {
    pub name: String,
    pub description: String,
    pub params: Vec<ToolParam>,
}

/// `p` is the argument `name` of kind `kind`, described by `description`,
/// required or not, with the default text `default_value`.
pub open spec fn param_is(
    p: ToolParam,
    name: Seq<char>,
    kind: ParamKind,
    description: Seq<char>,
    required: bool,
    default_value: Option<Seq<char>>,
) -> bool {
    &&& p.name@ == name
    &&& p.description@ == description
    &&& p.kind == kind
    &&& p.required == required
    &&& match (p.default_value, default_value) {
        (None, None) => true,
        (Some(d), Some(e)) => d@ == e,
        _ => false,
    }
}

fn param(name: &str, kind: ParamKind, description: &str, required: bool, default_value: Option<&str>) -> (r: ToolParam)
    ensures
        param_is(
            r,
            name@,
            kind,
            description@,
            required,
            match default_value {
                Some(d) => Some(d@),
                None => None,
            },
        ),
{
    let d = match default_value {
        Some(t) => Some(String::from_str(t)),
        None => None,
    };
    ToolParam {
        name: String::from_str(name),
        kind,
        description: String::from_str(description),
        required,
        default_value: d,
    }
}

/// The four operations, in this order: run a workflow, create one, list
/// them, and read the execution history; with the arguments of each.
pub fn list_tools() -> (r: Vec<ToolInfo>)
    ensures
        r@.len() == 4,
        r@[0].name@ == EXECUTE_WORKFLOW@,
        r@[0].description@ == EXECUTE_DESCRIPTION@,
        r@[0].params@.len() == 3,
        param_is(
            r@[0].params@[0],
            "workflow_id"@,
            ParamKind::Text,
            "ID or name of the workflow to execute"@,
            true,
            None,
        ),
        param_is(
            r@[0].params@[1],
            "input_data"@,
            ParamKind::Object,
            "Input data to pass to the workflow"@,
            false,
            Some("{}"@),
        ),
        param_is(
            r@[0].params@[2],
            "wait_for_completion"@,
            ParamKind::Boolean,
            "Whether to wait for workflow completion"@,
            false,
            Some("true"@),
        ),
        r@[1].name@ == CREATE_WORKFLOW@,
        r@[1].description@ == CREATE_DESCRIPTION@,
        r@[1].params@.len() == 3,
        param_is(r@[1].params@[0], "name"@, ParamKind::Text, "Name for the new workflow"@, true, None),
        param_is(
            r@[1].params@[1],
            "description"@,
            ParamKind::Text,
            "Description of what the workflow does"@,
            false,
            None,
        ),
        param_is(
            r@[1].params@[2],
            "nodes"@,
            ParamKind::Array,
            "Array of node definitions for the workflow"@,
            true,
            None,
        ),
        r@[2].name@ == LIST_WORKFLOWS@,
        r@[2].description@ == LIST_DESCRIPTION@,
        r@[2].params@.len() == 0,
        r@[3].name@ == GET_EXECUTION_HISTORY@,
        r@[3].description@ == HISTORY_DESCRIPTION@,
        r@[3].params@.len() == 0,
{
    let execute = ToolInfo {
        name: String::from_str(EXECUTE_WORKFLOW),
        description: String::from_str(EXECUTE_DESCRIPTION),
        params: vec![
            param("workflow_id", ParamKind::Text, "ID or name of the workflow to execute", true, None),
            param(
                "input_data",
                ParamKind::Object,
                "Input data to pass to the workflow",
                false,
                Some("{}"),
            ),
            param(
                "wait_for_completion",
                ParamKind::Boolean,
                "Whether to wait for workflow completion",
                false,
                Some("true"),
            ),
        ],
    };
    let create = ToolInfo {
        name: String::from_str(CREATE_WORKFLOW),
        description: String::from_str(CREATE_DESCRIPTION),
        params: vec![
            param("name", ParamKind::Text, "Name for the new workflow", true, None),
            param("description", ParamKind::Text, "Description of what the workflow does", false, None),
            param("nodes", ParamKind::Array, "Array of node definitions for the workflow", true, None),
        ],
    };
    let list = ToolInfo {
        name: String::from_str(LIST_WORKFLOWS),
        description: String::from_str(LIST_DESCRIPTION),
        params: Vec::new(),
    };
    let history = ToolInfo {
        name: String::from_str(GET_EXECUTION_HISTORY),
        description: String::from_str(HISTORY_DESCRIPTION),
        params: Vec::new(),
    };
    vec![execute, create, list, history]
}

} // verus!
