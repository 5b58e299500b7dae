//! The in-memory record of the executions a client has started.
use vstd::prelude::*;

verus! {

/// Where an execution stands. Records are created `Running`.
#[derive(Debug, Clone, Copy, PartialEq, Eq, Structural)]
pub enum ExecutionStatus {
    Running,
    Succeeded,
    Failed,
    Cancelled,
}

/// One execution of a workflow on the engine. Times are milliseconds since
/// the Unix epoch; `result` holds the text of the engine's final answer.
#[derive(Debug)]
pub struct WorkflowExecution {
    pub execution_id: String,
    pub workflow_id: String,
    pub triggered_by_conversation: Option<String>,
    pub status: ExecutionStatus,
    pub started_at: i64,
    pub finished_at: Option<i64>,
    pub result: Option<String>,
}

/// The record that `record_execution` appends.
pub open spec fn running_record(
    execution_id: String,
    workflow_id: String,
    session: Option<String>,
    started_at: i64,
) -> WorkflowExecution {
    WorkflowExecution {
        execution_id,
        workflow_id,
        triggered_by_conversation: session,
        status: ExecutionStatus::Running,
        started_at,
        finished_at: None,
        result: None,
    }
}

fn copy_text(s: &Option<String>) -> (r: Option<String>)
    ensures
        r == *s,
{
    match s {
        Some(t) => Some(t.clone()),
        None => None,
    }
}

impl WorkflowExecution {
    /// A field-by-field copy.
    pub fn duplicate(&self) -> (r: WorkflowExecution)
        ensures
            r == *self,
    {
        WorkflowExecution {
            execution_id: self.execution_id.clone(),
            workflow_id: self.workflow_id.clone(),
            triggered_by_conversation: copy_text(&self.triggered_by_conversation),
            status: self.status,
            started_at: self.started_at,
            finished_at: self.finished_at,
            result: copy_text(&self.result),
        }
    }
}

/// What a ledger holds: the active session and the records in the order
/// they were made.
pub struct LedgerView {
    pub session: Option<String>,
    pub records: Seq<WorkflowExecution>,
}

impl LedgerView {
    /// The ledger after a record of `execution_id` on `workflow_id`, started
    /// at `started_at`, is appended under the active session.
    pub open spec fn with_record(self, execution_id: String, workflow_id: String, started_at: i64) -> LedgerView {
        LedgerView {
            session: self.session,
            records: self.records.push(
                running_record(execution_id, workflow_id, self.session, started_at),
            ),
        }
    }

    /// Every finished record finished no earlier than it started.
    pub open spec fn well_ordered(self) -> bool {
        forall|i: int|
            0 <= i < self.records.len() && (#[trigger] self.records[i]).finished_at is Some
                ==> self.records[i].started_at <= self.records[i].finished_at->0
    }

    /// The ledger after `session` becomes the active session.
    pub open spec fn with_session(self, session: Option<String>) -> LedgerView {
        LedgerView { session, records: self.records }
    }
}

/// `r` is a record of `execution_id` that is still running.
pub open spec fn is_open_record(r: WorkflowExecution, execution_id: Seq<char>) -> bool {
    r.execution_id@ == execution_id && r.status == ExecutionStatus::Running
}

/// The first record of `execution_id` that is still running is at `i`.
pub open spec fn first_open_record(records: Seq<WorkflowExecution>, execution_id: Seq<char>, i: int) -> bool {
    &&& 0 <= i < records.len()
    &&& is_open_record(records[i], execution_id)
    &&& forall|j: int| 0 <= j < i ==> !is_open_record(#[trigger] records[j], execution_id)
}

/// `r` brought to the end `status` at `finished_at`, with `result`.
pub open spec fn completed_record(
    r: WorkflowExecution,
    status: ExecutionStatus,
    finished_at: i64,
    result: Option<String>,
) -> WorkflowExecution {
    WorkflowExecution { status, finished_at: Some(finished_at), result, ..r }
}

/// What `complete_execution` did, with `r` its answer: the first
/// still-running record of `execution_id` was brought to its end, or, where
/// none could be, nothing changed.
pub open spec fn completes(
    before: LedgerView,
    after: LedgerView,
    execution_id: Seq<char>,
    status: ExecutionStatus,
    finished_at: i64,
    result: Option<String>,
    r: Option<usize>,
) -> bool {
    match r {
        Some(i) => {
            &&& status != ExecutionStatus::Running
            &&& first_open_record(before.records, execution_id, i as int)
            &&& before.records[i as int].started_at <= finished_at
            &&& after == (LedgerView {
                session: before.session,
                records: before.records.update(
                    i as int,
                    completed_record(before.records[i as int], status, finished_at, result),
                ),
            })
        },
        None => {
            &&& after == before
            &&& (status == ExecutionStatus::Running || (forall|j: int|
                0 <= j < before.records.len() ==> !is_open_record(
                    #[trigger] before.records[j],
                    execution_id,
                )) || exists|k: int|
                first_open_record(before.records, execution_id, k)
                    && before.records[k].started_at > finished_at)
        },
    }
}

/// One change made to a ledger.
pub enum LedgerEvent {
    SetSession { session: Option<String> },
    Record { execution_id: String, workflow_id: String, started_at: i64 },
}

/// The ledger after one event.
pub open spec fn apply_event(v: LedgerView, e: LedgerEvent) -> LedgerView {
    match e {
        LedgerEvent::SetSession { session } => v.with_session(session),
        LedgerEvent::Record { execution_id, workflow_id, started_at } => v.with_record(
            execution_id,
            workflow_id,
            started_at,
        ),
    }
}

/// The ledger after the events, first to last.
pub open spec fn apply_events(v: LedgerView, events: Seq<LedgerEvent>) -> LedgerView
    decreases events.len(),
{
    if events.len() == 0 {
        v
    } else {
        apply_event(apply_events(v, events.drop_last()), events.last())
    }
}

/// How many of the events append a record.
pub open spec fn count_records(events: Seq<LedgerEvent>) -> nat
    decreases events.len(),
{
    if events.len() == 0 {
        0
    } else {
        count_records(events.drop_last()) + if events.last() is Record {
            1nat
        } else {
            0nat
        }
    }
}

/// The record that a `Record` event appends while `session` is active.
pub open spec fn event_record(e: LedgerEvent, session: Option<String>) -> WorkflowExecution
    recommends
        e is Record,
{
    match e {
        LedgerEvent::Record { execution_id, workflow_id, started_at } => running_record(
            execution_id,
            workflow_id,
            session,
            started_at,
        ),
        LedgerEvent::SetSession { .. } => arbitrary(),
    }
}

proof fn lemma_count_prefix(events: Seq<LedgerEvent>, i: int)
    requires
        0 <= i <= events.len(),
    ensures
        count_records(events.take(i)) <= count_records(events),
        i < events.len() && events[i] is Record ==> count_records(events.take(i)) < count_records(
            events,
        ),
    decreases events.len(),
{
    if i == events.len() {
        assert(events.take(i) =~= events);
    } else {
        let pre = events.drop_last();
        if i < pre.len() {
            lemma_count_prefix(pre, i);
            assert(events.take(i) =~= pre.take(i));
            assert(pre[i] == events[i]);
        } else {
            assert(events.take(i) =~= pre);
        }
    }
}

/// Replaying any events on a ledger keeps the records it had and appends one
/// record for each `Record` event and for nothing else, so that none is lost
/// or duplicated. They come in the order of their events, and each names the
/// session that was active at its own event, not at a later one.
pub proof fn lemma_records_follow_events(v: LedgerView, events: Seq<LedgerEvent>)
    ensures
        apply_events(v, events).records.len() == v.records.len() + count_records(events),
        apply_events(v, events).records.subrange(0, v.records.len() as int) == v.records,
        forall|i: int|
            #![trigger events[i]]
            0 <= i < events.len() && events[i] is Record ==> apply_events(v, events).records[(v.records.len()
                + count_records(events.take(i))) as int] == event_record(
                events[i],
                apply_events(v, events.take(i)).session,
            ),
    decreases events.len(),
{
    if events.len() > 0 {
        let pre = events.drop_last();
        lemma_records_follow_events(v, pre);
        let before = apply_events(v, pre);
        let after = apply_events(v, events);
        assert(after.records.subrange(0, v.records.len() as int) =~= v.records);
        assert forall|i: int|
            #![trigger events[i]]
            0 <= i < events.len() && events[i] is Record implies after.records[(v.records.len()
                + count_records(events.take(i))) as int] == event_record(
                events[i],
                apply_events(v, events.take(i)).session,
            ) by {
            if i < pre.len() {
                assert(events.take(i) =~= pre.take(i));
                assert(pre[i] == events[i]);
                lemma_count_prefix(pre, i);
                let k = (v.records.len() + count_records(pre.take(i))) as int;
                assert(k < before.records.len());
                assert(after.records[k] == before.records[k]);
            } else {
                assert(events.take(i) =~= pre);
                assert(after == before.with_record(
                    events.last()->Record_execution_id,
                    events.last()->Record_workflow_id,
                    events.last()->Record_started_at,
                ));
            }
        }
    } else {
        assert(apply_events(v, events).records.subrange(0, v.records.len() as int) =~= v.records);
    }
}

/// Executions started by a client, kept in the order they were recorded,
/// with the session that was active when each was recorded. Identifiers are
/// not deduplicated and nothing is ever evicted.
pub struct ExecutionLedger {
    session_id: Option<String>,
    records: Vec<WorkflowExecution>,
}

impl View for ExecutionLedger {
    type V = LedgerView;

    closed spec fn view(&self) -> LedgerView {
        LedgerView { session: self.session_id, records: self.records@ }
    }
}

impl ExecutionLedger {
    /// An empty ledger with no active session.
    pub fn new() -> (r: ExecutionLedger)
        ensures
            r@.session is None,
            r@.well_ordered(),
            r@.records == Seq::<WorkflowExecution>::empty(),
    {
        ExecutionLedger { session_id: None, records: Vec::new() }
    }

    /// Makes `session` the session that later records are attributed to.
    pub fn set_session(&mut self, session: Option<String>)
        ensures
            final(self)@ == old(self)@.with_session(session),
    {
        self.session_id = session;
    }

    /// The active session.
    pub fn session(&self) -> (r: Option<String>)
        ensures
            r == self@.session,
    {
        copy_text(&self.session_id)
    }

    /// Number of records.
    pub fn len(&self) -> (r: usize)
        ensures
            r == self@.records.len(),
    {
        self.records.len()
    }

    /// Appends a running record of `execution_id` on `workflow_id`, started
    /// at `started_at`, under the active session.
    pub fn record_execution_at(&mut self, execution_id: String, workflow_id: String, started_at: i64)
        requires
            execution_id@.len() > 0,
        ensures
            final(self)@ == old(self)@.with_record(execution_id, workflow_id, started_at),
            old(self)@.well_ordered() ==> final(self)@.well_ordered(),
    {
        let session = copy_text(&self.session_id);
        self.records.push(
            WorkflowExecution {
                execution_id,
                workflow_id,
                triggered_by_conversation: session,
                status: ExecutionStatus::Running,
                started_at,
                finished_at: None,
                result: None,
            },
        );
    }

    /// Appends a running record of `execution_id` on `workflow_id`, started
    /// now, under the active session.
    pub fn record_execution(&mut self, execution_id: String, workflow_id: String)
        requires
            execution_id@.len() > 0,
        ensures
            final(self)@ == old(self)@.with_record(
                execution_id,
                workflow_id,
                final(self)@.records.last().started_at,
            ),
            old(self)@.well_ordered() ==> final(self)@.well_ordered(),
    {
        let now = crate::bindings::now_millis();
        self.record_execution_at(execution_id, workflow_id, now);
    }

    /// Brings the first still-running record of `execution_id` to the end
    /// `status` at `finished_at`, with `result`, and returns its position.
    /// Nothing changes, and `None` comes back, where `status` is `Running`,
    /// no record of the identifier is running, or that record started after
    /// `finished_at`.
    pub fn complete_execution(
        &mut self,
        execution_id: &str,
        status: ExecutionStatus,
        finished_at: i64,
        result: Option<String>,
    ) -> (r: Option<usize>)
        ensures
            old(self)@.well_ordered() ==> final(self)@.well_ordered(),
            completes(old(self)@, final(self)@, execution_id@, status, finished_at, result, r),
    {
        if let ExecutionStatus::Running = status {
            return None;
        }
        let key = String::from_str(execution_id);
        let mut i: usize = 0;
        while i < self.records.len()
            invariant
                i <= self.records@.len(),
                key@ == execution_id@,
                *self == *old(self),
                !(status is Running),
                forall|j: int| 0 <= j < i ==> !is_open_record(#[trigger] self.records@[j], execution_id@),
            decreases self.records@.len() - i,
        {
            if self.records[i].execution_id == key && self.records[i].status == ExecutionStatus::Running {
                assert(first_open_record(self@.records, execution_id@, i as int));
                if self.records[i].started_at > finished_at {
                    return None;
                }
                let done = WorkflowExecution {
                    execution_id: self.records[i].execution_id.clone(),
                    workflow_id: self.records[i].workflow_id.clone(),
                    triggered_by_conversation: copy_text(&self.records[i].triggered_by_conversation),
                    status,
                    started_at: self.records[i].started_at,
                    finished_at: Some(finished_at),
                    result,
                };
                let ghost before = self@;
                self.records[i] = done;
                assert(self@.records =~= before.records.update(
                    i as int,
                    completed_record(before.records[i as int], status, finished_at, result),
                ));
                return Some(i);
            }
            i = i + 1;
        }
        None
    }

    /// A copy of every record, in the order they were recorded. The copy is
    /// the caller's own: changing it leaves the ledger as it was.
    pub fn history(&self) -> (r: Vec<WorkflowExecution>)
        ensures
            r@ == self@.records,
    {
        let mut out: Vec<WorkflowExecution> = Vec::new();
        let mut i: usize = 0;
        while i < self.records.len()
            invariant
                i <= self.records@.len(),
                out@ == self.records@.subrange(0, i as int),
            decreases self.records@.len() - i,
        {
            out.push(self.records[i].duplicate());
            i = i + 1;
            assert(out@ =~= self.records@.subrange(0, i as int));
        }
        assert(out@ =~= self.records@);
        out
    }
}

} // verus!
