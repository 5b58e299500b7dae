//! A client core for a workflow-automation engine: it checks tool calls,
//! frames the engine's HTTP requests, judges its answers, and keeps a ledger
//! of the executions it started.
pub mod bindings;
pub mod catalogue;
pub mod client;
pub mod config;
pub mod dispatch;
pub mod ledger;
pub mod types;

pub use catalogue::{list_tools, ParamKind, ToolInfo, ToolParam};
pub use client::{
    check_response, decode_answer, execution_id_of, finish_request, render_result, text_or_empty,
    HttpMethod,
    HttpOutcome, HttpRequest, N8nNativeClient, RemoteOp, RequestBody,
};
pub use config::{N8nConfig, DEFAULT_API_URL, REQUEST_TIMEOUT_SECS};
pub use dispatch::{plan_call, Operation, ToolArgs, ToolError};
pub use ledger::{ExecutionLedger, ExecutionStatus, LedgerEvent, LedgerView, WorkflowExecution};
pub use types::{
    ContextResponse, ConversationRequest, ConversationResponse, HealthResponse, RecipeRequest,
    RecipeResponse, SkillRequest, SkillResponse,
};
