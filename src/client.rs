//! A client of the workflow engine, without its transport: it frames each
//! request, judges the outcome it is handed back, and records the executions
//! it started.
use vstd::prelude::*;
use crate::config::N8nConfig;
use crate::dispatch::{remote_failure, ToolError, CREATED_BY, EXECUTION_ID_FIELD, EXECUTION_ORDER};
use crate::ledger::{completes, ExecutionLedger, ExecutionStatus, LedgerView, WorkflowExecution};
use crate::bindings::{document_of, is_json_document, member, parse_document, pretty_text, string_of};

verus! {

#[derive(Debug, Clone, Copy, PartialEq, Eq, Structural)]
pub enum HttpMethod {
    Get,
    Post,
}

/// What a request carries in its body.
pub enum RequestBody {
    /// No body.
    Empty,
    /// `{"data": data}`.
    ExecutionInput { data: serde_json::Value },
    /// A new workflow with no connections: `name` and `nodes`, the flag
    /// `active`, the setting `execution_order`, and metadata naming its
    /// author `created_by` and carrying `description`.
    WorkflowDefinition {
        name: String,
        description: String,
        nodes: Vec<serde_json::Value>,
        active: bool,
        execution_order: String,
        created_by: String,
    },
}

/// A request to send to the engine, with the API key in its header.
pub struct HttpRequest {
    pub method: HttpMethod,
    pub url: String,
    pub api_key: String,
    /// Whether the query asks the engine to answer only once the execution
    /// has completed.
    pub wait_till_completed: bool,
    pub body: RequestBody,
}

/// The three requests a client makes.
#[derive(Debug, Clone, Copy, PartialEq, Eq, Structural)]
pub enum RemoteOp {
    Execute,
    Create,
    List,
}

/// What came of sending a request.
pub enum HttpOutcome {
    /// The request did not complete (no connection, timeout); `error` says why.
    Failed { error: String },
    /// The engine answered with `status` and the text `body`.
    Answered { status: u16, body: String },
}

/// Start of the error text when a request did not complete.
pub open spec fn transport_prefix(op: RemoteOp) -> Seq<char> {
    match op {
        RemoteOp::Execute => "Failed to execute workflow: "@,
        RemoteOp::Create => "Failed to create workflow: "@,
        RemoteOp::List => "Failed to list workflows: "@,
    }
}

/// Start of the error text when the engine answered with a failure status.
pub open spec fn status_prefix(op: RemoteOp) -> Seq<char> {
    match op {
        RemoteOp::Execute => "Workflow execution failed: "@,
        RemoteOp::Create => "Workflow creation failed: "@,
        RemoteOp::List => "Failed to list workflows: "@,
    }
}

/// A status in the success range.
pub open spec fn is_success(status: u16) -> bool {
    200 <= status <= 299
}

/// The outcome did not reach a successful answer.
pub open spec fn outcome_failed(outcome: HttpOutcome) -> bool {
    match outcome {
        HttpOutcome::Failed { .. } => true,
        HttpOutcome::Answered { status, .. } => !is_success(status),
    }
}

/// The error text for an outcome that did not reach a successful answer.
pub open spec fn failure_detail(op: RemoteOp, outcome: HttpOutcome) -> Seq<char> {
    match outcome {
        HttpOutcome::Failed { error } => transport_prefix(op) + error@,
        HttpOutcome::Answered { body, .. } => status_prefix(op) + body@,
    }
}

/// Start of the error text when a successful answer is not a document.
pub open spec fn parse_prefix() -> Seq<char> {
    "Failed to parse response: "@
}

fn prefixed(prefix: &str, detail: &str) -> (r: String)
    ensures
        r@ == prefix@ + detail@,
{
    let mut s = String::from_str(prefix);
    s.append(detail);
    s
}

/// The body of a successful answer, or the error for any other outcome.
pub fn check_response(op: RemoteOp, outcome: HttpOutcome) -> (r: Result<String, ToolError>)
    ensures
        outcome_failed(outcome) ==> remote_failure(r, failure_detail(op, outcome)),
        !outcome_failed(outcome) ==> (r matches Ok(body) && body == outcome->Answered_body),
{
    let transport = match op {
        RemoteOp::Execute => "Failed to execute workflow: ",
        RemoteOp::Create => "Failed to create workflow: ",
        RemoteOp::List => "Failed to list workflows: ",
    };
    let refused = match op {
        RemoteOp::Execute => "Workflow execution failed: ",
        RemoteOp::Create => "Workflow creation failed: ",
        RemoteOp::List => "Failed to list workflows: ",
    };
    match outcome {
        HttpOutcome::Failed { error } => Err(
            ToolError::RemoteCallError(prefixed(transport, error.as_str())),
        ),
        HttpOutcome::Answered { status, body } => {
            if 200 <= status && status <= 299 {
                Ok(body)
            } else {
                Err(ToolError::RemoteCallError(prefixed(refused, body.as_str())))
            }
        },
    }
}

/// `r` is what reading the answer text `body` gives: the document it holds,
/// or, where it holds none, a remote-call error whose text starts with
/// `parse_prefix()`.
pub open spec fn decoded(r: Result<serde_json::Value, ToolError>, body: Seq<char>) -> bool {
    &&& r is Ok <==> is_json_document(body)
    &&& r is Ok ==> r->Ok_0 == document_of(body)
    &&& r is Err ==> (r matches Err(ToolError::RemoteCallError(d)) && parse_prefix().is_prefix_of(
        d@,
    ))
}

/// The document a successful answer holds; a body that is not one gives a
/// remote-call error whose text starts with `parse_prefix()`.
pub fn decode_answer(body: &str) -> (r: Result<serde_json::Value, ToolError>)
    ensures
        decoded(r, body@),
{
    match parse_document(body) {
        Ok(v) => Ok(v),
        Err(e) => {
            let d = prefixed("Failed to parse response: ", e.as_str());
            assert(parse_prefix().is_prefix_of(d@)) by {
                assert(d@.subrange(0, parse_prefix().len() as int) =~= parse_prefix());
            }
            Err(ToolError::RemoteCallError(d))
        },
    }
}

/// The identifier the engine gave a new execution, where its answer names
/// one as a string under `executionId`.
pub fn execution_id_of(answer: &serde_json::Value) -> (r: Option<String>) {
    match member(answer, EXECUTION_ID_FIELD) {
        Some(v) => string_of(&v),
        None => None,
    }
}

/// The text written, or the empty text where none could be written.
pub fn text_or_empty(written: Option<String>) -> (r: String)
    ensures
        r@ == (match written {
            Some(t) => t@,
            None => Seq::<char>::empty(),
        }),
{
    match written {
        Some(t) => t,
        None => String::new(),
    }
}

/// The indented text of a result; the empty text where it cannot be written.
pub fn render_result(v: &serde_json::Value) -> (r: String) {
    text_or_empty(pretty_text(v))
}

/// What a client holds: its settings and its ledger.
pub struct ClientView {
    pub config: N8nConfig,
    pub ledger: LedgerView,
}

/// The ledger of `after` is that of `before` with one running record
/// appended, of `execution_id`, a non-empty identifier, on `workflow_id`,
/// under the active session, started at any time.
pub open spec fn recorded_one(
    before: LedgerView,
    after: LedgerView,
    execution_id: Seq<char>,
    workflow_id: Seq<char>,
) -> bool {
    let rec = after.records.last();
    &&& execution_id.len() > 0
    &&& rec.execution_id@ == execution_id
    &&& rec.workflow_id@ == workflow_id
    &&& after == before.with_record(rec.execution_id, rec.workflow_id, rec.started_at)
}

/// What recording an execution of `workflow_id` that the engine named
/// `execution_id` does: with tracking on and a present, non-empty
/// identifier, one running record is appended; otherwise nothing changes.
pub open spec fn tracks(
    tracking: bool,
    before: LedgerView,
    after: LedgerView,
    workflow_id: Seq<char>,
    execution_id: Option<String>,
) -> bool {
    let recording = tracking && execution_id is Some && execution_id->0@.len() > 0;
    &&& recording ==> recorded_one(before, after, execution_id->0@, workflow_id)
    &&& !recording ==> after == before
}

/// The record made by the `i`-th of consecutive recordings in `ledgers`:
/// of `execution_ids[i]` on `workflow_ids[i]`, running, under the session
/// active just before it.
pub open spec fn made_by_recording(
    rec: WorkflowExecution,
    ledgers: Seq<LedgerView>,
    execution_ids: Seq<Seq<char>>,
    workflow_ids: Seq<Seq<char>>,
    i: int,
) -> bool {
    &&& rec.execution_id@ == execution_ids[i]
    &&& rec.workflow_id@ == workflow_ids[i]
    &&& rec.status == ExecutionStatus::Running
    &&& rec.triggered_by_conversation == ledgers[i].session
    &&& rec.finished_at is None
    &&& rec.result is None
}

/// Recordings made one after another, each appending a record as
/// `recorded_one` says (as each successful, tracked execution does), leave
/// the earlier records as they were and add exactly one record per
/// recording, none lost or duplicated, in the order they were made, each
/// naming its own identifier, workflow and the session active at its time.
pub proof fn lemma_recordings_in_order(
    ledgers: Seq<LedgerView>,
    execution_ids: Seq<Seq<char>>,
    workflow_ids: Seq<Seq<char>>,
)
    requires
        ledgers.len() == execution_ids.len() + 1,
        workflow_ids.len() == execution_ids.len(),
        forall|i: int|
            0 <= i < execution_ids.len() ==> recorded_one(
                #[trigger] ledgers[i],
                ledgers[i + 1],
                execution_ids[i],
                workflow_ids[i],
            ),
    ensures
        ledgers.last().records.len() == ledgers[0].records.len() + execution_ids.len(),
        ledgers.last().records.subrange(0, ledgers[0].records.len() as int) == ledgers[0].records,
        forall|i: int|
            0 <= i < execution_ids.len() ==> made_by_recording(
                #[trigger] ledgers.last().records[ledgers[0].records.len() + i],
                ledgers,
                execution_ids,
                workflow_ids,
                i,
            ),
    decreases execution_ids.len(),
{
    let n = execution_ids.len() as int;
    if n == 0 {
        assert(ledgers.last().records.subrange(0, ledgers[0].records.len() as int) =~= ledgers[0].records);
    } else {
        let ls = ledgers.drop_last();
        let es = execution_ids.drop_last();
        let ws = workflow_ids.drop_last();
        assert forall|i: int| 0 <= i < es.len() implies recorded_one(
            #[trigger] ls[i],
            ls[i + 1],
            es[i],
            ws[i],
        ) by {
            assert(recorded_one(ledgers[i], ledgers[i + 1], execution_ids[i], workflow_ids[i]));
        }
        lemma_recordings_in_order(ls, es, ws);
        assert(recorded_one(ledgers[n - 1], ledgers[n], execution_ids[n - 1], workflow_ids[n - 1]));
        let base = ledgers[0].records.len() as int;
        let prev = ls.last().records;
        let last = ledgers.last().records;
        assert(ls.last() == ledgers[n - 1]);
        assert(last.subrange(0, base) =~= ledgers[0].records) by {
            assert(last.subrange(0, base) =~= prev.subrange(0, base));
        }
        assert forall|i: int| 0 <= i < n implies made_by_recording(
            #[trigger] last[base + i],
            ledgers,
            execution_ids,
            workflow_ids,
            i,
        ) by {
            if i < n - 1 {
                assert(made_by_recording(prev[base + i], ls, es, ws, i));
                assert(last[base + i] == prev[base + i]);
            }
        }
    }
}

/// Two successful, tracked executions, in either order, leave the earlier
/// records as they were and add exactly two records: first the one made
/// first, then the other.
pub proof fn lemma_two_recordings(
    l0: LedgerView,
    l1: LedgerView,
    l2: LedgerView,
    e1: Seq<char>,
    w1: Seq<char>,
    e2: Seq<char>,
    w2: Seq<char>,
)
    requires
        recorded_one(l0, l1, e1, w1),
        recorded_one(l1, l2, e2, w2),
    ensures
        l2.records.len() == l0.records.len() + 2,
        l2.records.subrange(0, l0.records.len() as int) == l0.records,
        l2.records[l0.records.len() as int].execution_id@ == e1,
        l2.records[l0.records.len() as int].workflow_id@ == w1,
        l2.records[l0.records.len() as int].status == ExecutionStatus::Running,
        l2.records[l0.records.len() + 1int].execution_id@ == e2,
        l2.records[l0.records.len() + 1int].workflow_id@ == w2,
        l2.records[l0.records.len() + 1int].status == ExecutionStatus::Running,
{
    let ledgers = seq![l0, l1, l2];
    let ids = seq![e1, e2];
    let wfs = seq![w1, w2];
    assert(ledgers[0] == l0 && ledgers[1] == l1 && ledgers[2] == l2);
    lemma_recordings_in_order(ledgers, ids, wfs);
    assert(ledgers.last() == l2);
    assert(made_by_recording(l2.records[l0.records.len() + 0int], ledgers, ids, wfs, 0));
    assert(made_by_recording(l2.records[l0.records.len() + 1int], ledgers, ids, wfs, 1));
}

/// The core of a client of the workflow engine.
pub struct N8nNativeClient {
    config: N8nConfig,
    ledger: ExecutionLedger,
}

impl View for N8nNativeClient {
    type V = ClientView;

    closed spec fn view(&self) -> ClientView {
        ClientView { config: self.config, ledger: self.ledger@ }
    }
}

impl N8nNativeClient {
    /// A client with the given settings and an empty ledger.
    pub fn new(config: N8nConfig) -> (r: N8nNativeClient)
        ensures
            r@.config == config,
            r@.ledger.session is None,
            r@.ledger.records == Seq::<WorkflowExecution>::empty(),
            r@.ledger.well_ordered(),
    {
        N8nNativeClient { config, ledger: ExecutionLedger::new() }
    }

    /// The client's settings.
    pub fn config(&self) -> (r: &N8nConfig)
        ensures
            *r == self@.config,
    {
        &self.config
    }

    /// Makes `session` the session that later executions are attributed to.
    pub fn set_session(&mut self, session: Option<String>)
        ensures
            final(self)@.config == old(self)@.config,
            final(self)@.ledger == old(self)@.ledger.with_session(session),
    {
        self.ledger.set_session(session);
    }

    /// Brings the first still-running record of `execution_id` to the end
    /// `status`; see `ExecutionLedger::complete_execution`.
    pub fn complete_execution(
        &mut self,
        execution_id: &str,
        status: ExecutionStatus,
        finished_at: i64,
        result: Option<String>,
    ) -> (r: Option<usize>)
        ensures
            final(self)@.config == old(self)@.config,
            completes(old(self)@.ledger, final(self)@.ledger, execution_id@, status, finished_at, result, r),
            old(self)@.ledger.well_ordered() ==> final(self)@.ledger.well_ordered(),
    {
        self.ledger.complete_execution(execution_id, status, finished_at, result)
    }

    /// A copy of the ledger's records, in the order they were recorded.
    pub fn get_execution_history(&self) -> (r: Vec<WorkflowExecution>)
        ensures
            r@ == self@.ledger.records,
    {
        self.ledger.history()
    }

    /// The request that runs `workflow_id` on `input_data`: a POST to
    /// `{api_url}/workflows/{workflow_id}/execute`.
    pub fn execute_request(&self, workflow_id: &str, input_data: serde_json::Value, wait_for_completion: bool) -> (r: HttpRequest)
        ensures
            r.method == HttpMethod::Post,
            r.url@ == self@.config.api_url@ + "/workflows/"@ + workflow_id@ + "/execute"@,
            r.api_key == self@.config.api_key,
            r.wait_till_completed == wait_for_completion,
            r.body == (RequestBody::ExecutionInput { data: input_data }),
    {
        let mut url = self.config.api_url.clone();
        url.append("/workflows/");
        url.append(workflow_id);
        url.append("/execute");
        HttpRequest {
            method: HttpMethod::Post,
            url,
            api_key: self.config.api_key.clone(),
            wait_till_completed: wait_for_completion,
            body: RequestBody::ExecutionInput { data: input_data },
        }
    }

    /// The request that creates a workflow: a POST to `{api_url}/workflows`.
    pub fn create_request(&self, name: String, description: String, nodes: Vec<serde_json::Value>) -> (r: HttpRequest)
        ensures
            r.method == HttpMethod::Post,
            r.url@ == self@.config.api_url@ + "/workflows"@,
            r.api_key == self@.config.api_key,
            !r.wait_till_completed,
            r.body matches RequestBody::WorkflowDefinition {
                name: n,
                description: d,
                nodes: ns,
                active,
                execution_order,
                created_by,
            } && n == name && d == description && ns == nodes && !active
                && execution_order@ == EXECUTION_ORDER@ && created_by@ == CREATED_BY@,
    {
        let mut url = self.config.api_url.clone();
        url.append("/workflows");
        HttpRequest {
            method: HttpMethod::Post,
            url,
            api_key: self.config.api_key.clone(),
            wait_till_completed: false,
            body: RequestBody::WorkflowDefinition {
                name,
                description,
                nodes,
                active: false,
                execution_order: String::from_str(EXECUTION_ORDER),
                created_by: String::from_str(CREATED_BY),
            },
        }
    }

    /// The request that lists the workflows: a GET of `{api_url}/workflows`.
    pub fn list_request(&self) -> (r: HttpRequest)
        ensures
            r.method == HttpMethod::Get,
            r.url@ == self@.config.api_url@ + "/workflows"@,
            r.api_key == self@.config.api_key,
            !r.wait_till_completed,
            r.body is Empty,
    {
        let mut url = self.config.api_url.clone();
        url.append("/workflows");
        HttpRequest {
            method: HttpMethod::Get,
            url,
            api_key: self.config.api_key.clone(),
            wait_till_completed: false,
            body: RequestBody::Empty,
        }
    }

    /// Records an execution of `workflow_id` that the engine named
    /// `execution_id`, where tracking is on and the identifier is present and
    /// not empty; otherwise changes nothing.
    pub fn track_execution(&mut self, workflow_id: &str, execution_id: Option<String>)
        ensures
            final(self)@.config == old(self)@.config,
            tracks(
                old(self)@.config.enable_execution_tracking,
                old(self)@.ledger,
                final(self)@.ledger,
                workflow_id@,
                execution_id,
            ),
            old(self)@.ledger.well_ordered() ==> final(self)@.ledger.well_ordered(),
    {
        if self.config.enable_execution_tracking {
            match execution_id {
                Some(id) => {
                    if id.unicode_len() > 0 {
                        self.ledger.record_execution(id, String::from_str(workflow_id));
                    }
                },
                None => {},
            }
        }
    }

    /// Judges the outcome of an execute request for `workflow_id`: the
    /// engine's answer on success, recording the execution it names; an
    /// error, with the ledger unchanged, on any failure.
    pub fn finish_execute(&mut self, workflow_id: &str, outcome: HttpOutcome) -> (r: Result<serde_json::Value, ToolError>)
        ensures
            final(self)@.config == old(self)@.config,
            outcome_failed(outcome) ==> remote_failure(r, failure_detail(RemoteOp::Execute, outcome)),
            !outcome_failed(outcome) ==> decoded(r, outcome->Answered_body@),
            r is Err ==> final(self)@.ledger == old(self)@.ledger,
            r is Ok ==> exists|id: Option<String>|
                tracks(
                    old(self)@.config.enable_execution_tracking,
                    old(self)@.ledger,
                    final(self)@.ledger,
                    workflow_id@,
                    id,
                ),
            !old(self)@.config.enable_execution_tracking ==> final(self)@.ledger == old(self)@.ledger,
            old(self)@.ledger.well_ordered() ==> final(self)@.ledger.well_ordered(),
    {
        let body = match check_response(RemoteOp::Execute, outcome) {
            Ok(b) => b,
            Err(e) => {
                return Err(e);
            },
        };
        let answer = match decode_answer(body.as_str()) {
            Ok(v) => v,
            Err(e) => {
                return Err(e);
            },
        };
        let id = execution_id_of(&answer);
        self.track_execution(workflow_id, id);
        Ok(answer)
    }
}

/// Judges the outcome of a create or list request: the engine's answer on
/// success, an error on any failure.
pub fn finish_request(op: RemoteOp, outcome: HttpOutcome) -> (r: Result<serde_json::Value, ToolError>)
    ensures
        outcome_failed(outcome) ==> remote_failure(r, failure_detail(op, outcome)),
        !outcome_failed(outcome) ==> decoded(r, outcome->Answered_body@),
{
    match check_response(op, outcome) {
        Ok(body) => decode_answer(body.as_str()),
        Err(e) => Err(e),
    }
}

} // verus!
