//! The session: the workers, the jobs they run, and the events that changes to them
//! publish.
use vstd::prelude::*;
use crate::cancellation::JobToken;
use crate::agent_loop::AgentLoopInput;
use crate::context::{ContextBuilder, ContextContainer, history_messages, messages_view};
use crate::conversation::{with_input, UserMessage, UserMessageContent};
use crate::events::{tool_input_of, AgentLoopEvent, OutputChunk, ToolInput};
use crate::model::{ConversationMessage, ModelRequest, ModelResponse, ModelResponseChunk};
use crate::event_bus::EventBus;
use crate::events::{
    now, AgentEnvironmentEvent, JobCompletionResult, JobEvent, UserInteractionRequired, WorkerEvent,
    WorkerLifecycleState,
};
use crate::ids::{is_random_id, new_id};
use crate::metadata::{MetadataValue, TaskMetadata, value_text};
use crate::text::{owned, str_eq};
use crate::worker::{is_fresh_worker, Worker, WorkerStates};

verus! {

broadcast use vstd::string::group_string_axioms;

/// How many finished jobs the session keeps.
pub const MAX_INACTIVE_JOBS: usize = 3;

/// A job the session launched.
pub struct JobRecord {
    pub job_id: u128,
    pub worker_id: u128,
    /// Whether the job still runs (until its end is reported).
    pub active: bool,
    /// The token that cancels the job.
    pub cancellation_token: JobToken,
}

/// What the caller gets for a launched job: its identifiers and a handle on its
/// cancellation token.
pub struct JobTicket {
    pub job_id: u128,
    pub worker_id: u128,
    pub cancellation_token: JobToken,
}

/// How a job's continuations ended.
#[derive(Clone, Copy, Debug, PartialEq, Eq, Structural)]
pub enum WorkerJobCompletionType {
    Normal,
    Failed,
    Cancelled,
}

/// The state of a job's continuations.
#[derive(Clone, Debug)]
pub enum JobState {
    Running,
    Done(WorkerJobCompletionType, Option<String>),
}

/// How a job ended, as its completion is reported.
#[derive(Clone, Debug)]
pub enum JobOutcome {
    /// The job completed.
    Completed,
    /// The job was cancelled.
    Cancelled,
    /// The job failed with this message.
    Failed(String),
}

/// The outcome of a job: completed, cancelled, or failed with its message (a failure
/// without one reads `Job failed with unknown error`).
pub fn job_outcome(state: JobState) -> (r: JobOutcome)
    ensures
        match state {
            JobState::Running => r is Completed,
            JobState::Done(WorkerJobCompletionType::Normal, _) => r is Completed,
            JobState::Done(WorkerJobCompletionType::Failed, Some(msg)) => r == JobOutcome::Failed(msg),
            JobState::Done(WorkerJobCompletionType::Failed, None) => r matches JobOutcome::Failed(m) && m@
                == "Job failed with unknown error"@,
            JobState::Done(WorkerJobCompletionType::Cancelled, _) => r is Cancelled,
        },
{
    proof {
        reveal_strlit("Job failed with unknown error");
    }
    match state {
        JobState::Running => JobOutcome::Completed,
        JobState::Done(WorkerJobCompletionType::Normal, _) => JobOutcome::Completed,
        JobState::Done(WorkerJobCompletionType::Failed, Some(msg)) => JobOutcome::Failed(msg),
        JobState::Done(WorkerJobCompletionType::Failed, None) => JobOutcome::Failed(
            owned("Job failed with unknown error"),
        ),
        JobState::Done(WorkerJobCompletionType::Cancelled, _) => JobOutcome::Cancelled,
    }
}

/// `i` is the first position of a worker with identifier `id`.
pub open spec fn first_worker(ws: Seq<Worker>, id: u128, i: int) -> bool {
    &&& 0 <= i < ws.len()
    &&& ws[i].id == id
    &&& forall|j: int| 0 <= j < i ==> ws[j].id != id
}

/// Some worker has identifier `id`.
pub open spec fn has_worker(ws: Seq<Worker>, id: u128) -> bool {
    exists|i: int| 0 <= i < ws.len() && ws[i].id == id
}

/// The first position of a worker with identifier `id`.
pub open spec fn first_worker_index(ws: Seq<Worker>, id: u128) -> int {
    choose|i: int| first_worker(ws, id, i)
}

pub proof fn lemma_first_worker_unique(ws: Seq<Worker>, id: u128, i: int)
    requires
        first_worker(ws, id, i),
    ensures
        has_worker(ws, id),
        first_worker_index(ws, id) == i,
{
    let k = first_worker_index(ws, id);
    assert(first_worker(ws, id, k));
    if k < i {
        assert(ws[k].id != id);
    } else if i < k {
        assert(ws[i].id != id);
    }
}

/// When some worker has identifier `id`, a first one has.
pub proof fn lemma_some_first_worker(ws: Seq<Worker>, id: u128) -> (k: int)
    requires
        has_worker(ws, id),
    ensures
        first_worker(ws, id, k),
    decreases ws.len(),
{
    let t = ws.drop_last();
    if has_worker(t, id) {
        let k = lemma_some_first_worker(t, id);
        assert(ws[k] == t[k]);
        assert forall|j: int| 0 <= j < k implies ws[j].id != id by {
            assert(ws[j] == t[j]);
        }
        k
    } else {
        let i = choose|i: int| 0 <= i < ws.len() && ws[i].id == id;
        assert forall|j: int| 0 <= j < ws.len() - 1 implies ws[j].id != id by {
            assert(ws[j] == t[j]);
        }
        assert(i == ws.len() - 1);
        ws.len() - 1
    }
}

/// The workers after the first one with identifier `id` moves to lifecycle state `s`.
pub open spec fn lifecycle_set(ws: Seq<Worker>, id: u128, s: WorkerLifecycleState) -> Seq<Worker> {
    if has_worker(ws, id) {
        let i = first_worker_index(ws, id);
        ws.update(i, Worker { lifecycle_state: s, ..ws[i] })
    } else {
        ws
    }
}

/// The workers after a prompt `text` reaches the first worker with identifier `id` and
/// an agent loop starts for it: the prompt opens a new conversation entry and the worker
/// becomes busy.
pub open spec fn prompt_started(before: Seq<Worker>, after: Seq<Worker>, id: u128, text: String) -> bool {
    let k = first_worker_index(before, id);
    let w = before[k];
    let h = after[k].context_container.conversation_history;
    &&& after == before.update(
        k,
        Worker {
            lifecycle_state: WorkerLifecycleState::Busy,
            context_container: ContextContainer { conversation_history: h, ..w.context_container },
            ..w
        },
    )
    &&& h@ == with_input(
        w.context_container.conversation_history@,
        UserMessage { content: UserMessageContent::Prompt { prompt: text }, timestamp: None },
    )
}

/// `after` is `before` with one more running, uncancelled job `job_id` of worker `id`.
pub open spec fn job_added(before: Seq<JobRecord>, after: Seq<JobRecord>, id: u128, job_id: u128) -> bool {
    &&& after.len() == before.len() + 1
    &&& after.drop_last() == before
    &&& after.last().job_id == job_id
    &&& after.last().worker_id == id
    &&& after.last().active
    &&& !after.last().cancellation_token.cancel_requested()
}

/// From position `n` on, `ev` holds what launching an agent loop for the first worker with
/// identifier `id` among `ws` publishes: the worker's move to busy, then the job's start.
pub open spec fn launch_published_at(ev: Seq<AgentEnvironmentEvent>, n: int, ws: Seq<Worker>, id: u128) -> bool {
    &&& ev.len() == n + 2
    &&& ev[n] matches AgentEnvironmentEvent::Worker(
        WorkerEvent::LifecycleStateChanged { worker_id, old_state, new_state, .. },
    ) && worker_id == id && old_state == ws[first_worker_index(ws, id)].lifecycle_state && new_state
        == WorkerLifecycleState::Busy
    &&& ev[n + 1] matches AgentEnvironmentEvent::Job(JobEvent::Started { worker_id, task_type, .. })
        && worker_id == id && task_type@ == "AgentLoop"@
}

/// A prompt added to the first worker with identifier `id`, followed by its move to busy,
/// gives `prompt_started`; the first such worker stays where it was.
pub proof fn lemma_prompt_then_busy(ws0: Seq<Worker>, ws1: Seq<Worker>, id: u128, text: String)
    requires
        has_worker(ws0, id),
        ({
            let i = first_worker_index(ws0, id);
            let w = ws0[i];
            &&& ws1 == ws0.update(
                i,
                Worker {
                    context_container: ContextContainer {
                        conversation_history: ws1[i].context_container.conversation_history,
                        ..w.context_container
                    },
                    ..w
                },
            )
            &&& ws1[i].context_container.conversation_history@ == with_input(
                w.context_container.conversation_history@,
                UserMessage { content: UserMessageContent::Prompt { prompt: text }, timestamp: None },
            )
        }),
    ensures
        has_worker(ws1, id),
        first_worker_index(ws1, id) == first_worker_index(ws0, id),
        ws1[first_worker_index(ws1, id)].lifecycle_state == ws0[first_worker_index(ws0, id)].lifecycle_state,
        prompt_started(ws0, lifecycle_set(ws1, id, WorkerLifecycleState::Busy), id, text),
{
    let k = lemma_some_first_worker(ws0, id);
    lemma_first_worker_unique(ws0, id, k);
    assert forall|j: int| 0 <= j < k implies ws1[j].id != id by {
        assert(ws1[j] == ws0[j]);
    }
    assert(first_worker(ws1, id, k));
    lemma_first_worker_unique(ws1, id, k);
    let ws2 = lifecycle_set(ws1, id, WorkerLifecycleState::Busy);
    assert(ws2 =~= ws0.update(
        k,
        Worker {
            lifecycle_state: WorkerLifecycleState::Busy,
            context_container: ContextContainer {
                conversation_history: ws2[k].context_container.conversation_history,
                ..ws0[k].context_container
            },
            ..ws0[k]
        },
    ));
}

/// `after` is `before` with one more event.
pub open spec fn one_more(before: Seq<AgentEnvironmentEvent>, after: Seq<AgentEnvironmentEvent>) -> bool {
    after.len() == before.len() + 1 && after.drop_last() == before
}

/// The events published when the first worker with identifier `id` moves to state `s`:
/// one state change from its old state, or nothing when there is no such worker.
pub open spec fn lifecycle_published(
    before: Seq<AgentEnvironmentEvent>,
    after: Seq<AgentEnvironmentEvent>,
    ws: Seq<Worker>,
    id: u128,
    s: WorkerLifecycleState,
) -> bool {
    if has_worker(ws, id) {
        &&& one_more(before, after)
        &&& after.last() matches AgentEnvironmentEvent::Worker(
            WorkerEvent::LifecycleStateChanged { worker_id, old_state, new_state, .. },
        ) && worker_id == id && old_state == ws[first_worker_index(ws, id)].lifecycle_state && new_state
            == s
    } else {
        after == before
    }
}

/// `after` is job `before` once the session has cancelled its token; nothing else of it
/// changed.
pub open spec fn cancelled(before: JobRecord, after: JobRecord) -> bool {
    &&& after.job_id == before.job_id
    &&& after.worker_id == before.worker_id
    &&& after.active == before.active
    &&& after.cancellation_token.state() == before.cancellation_token.state()
    &&& after.cancellation_token.cancel_requested()
}

/// `after` is `before` once the session has cancelled the jobs of worker `id`, and only
/// those.
pub open spec fn jobs_cancelled(before: Seq<JobRecord>, after: Seq<JobRecord>, id: u128) -> bool {
    &&& after.len() == before.len()
    &&& forall|k: int|
        0 <= k < before.len() ==> if before[k].worker_id == id {
            cancelled(before[k], #[trigger] after[k])
        } else {
            after[k] == before[k]
        }
}

/// The jobs after the end of job `id` is reported.
pub open spec fn finish_job_spec(js: Seq<JobRecord>, id: u128) -> Seq<JobRecord> {
    js.map_values(|j: JobRecord| if j.job_id == id { JobRecord { active: false, ..j } } else { j })
}

pub open spec fn is_active(j: JobRecord) -> bool {
    j.active
}

pub open spec fn is_inactive(j: JobRecord) -> bool {
    !j.active
}

/// The jobs that still run, in order.
pub open spec fn active_jobs(js: Seq<JobRecord>) -> Seq<JobRecord> {
    js.filter(|j: JobRecord| is_active(j))
}

/// The finished jobs, in order.
pub open spec fn inactive_jobs(js: Seq<JobRecord>) -> Seq<JobRecord> {
    js.filter(|j: JobRecord| is_inactive(j))
}

/// The jobs that cleanup keeps: the running ones, then the most recent finished ones, at
/// most `MAX_INACTIVE_JOBS` of them.
pub open spec fn cleanup_spec(js: Seq<JobRecord>) -> Seq<JobRecord> {
    let inactive = inactive_jobs(js);
    let keep_from = if inactive.len() > MAX_INACTIVE_JOBS { inactive.len() - MAX_INACTIVE_JOBS } else { 0 };
    active_jobs(js) + inactive.skip(keep_from)
}

/// The key under which the agent loop records its completion state
/// (`task_metadata_keys::AGENT_LOOP_COMPLETION_STATE`).
pub open spec fn completion_state_key() -> Seq<char> {
    "agent_loop.completion_state"@
}

/// Whether a job that succeeded waits for a tool approval, given its worker's metadata.
pub open spec fn interaction_required(meta: Map<Seq<char>, MetadataValue>) -> UserInteractionRequired {
    if meta.contains_key(completion_state_key()) && value_text(meta[completion_state_key()])
        == Some("completed_with_tool_request"@) {
        UserInteractionRequired::ToolApproval
    } else {
        UserInteractionRequired::NotRequired
    }
}

/// The metadata job completion reports for worker `id`: that of its first worker, or none.
pub open spec fn worker_metadata(ws: Seq<Worker>, id: u128) -> Map<Seq<char>, MetadataValue> {
    if has_worker(ws, id) {
        ws[first_worker_index(ws, id)].task_metadata@
    } else {
        Map::empty()
    }
}

/// The completion result reported for an outcome.
pub open spec fn completion_matches(
    r: JobCompletionResult,
    outcome: JobOutcome,
    meta: Map<Seq<char>, MetadataValue>,
) -> bool {
    match outcome {
        JobOutcome::Completed => r matches JobCompletionResult::Success { task_metadata, user_interaction_required }
            && task_metadata@ == meta && user_interaction_required == interaction_required(meta),
        JobOutcome::Cancelled => r is Cancelled,
        JobOutcome::Failed(e) => r matches JobCompletionResult::Failed { error } && error@ == e@,
    }
}

/// The lifecycle state a worker returns to after a job with this outcome: idle unless
/// the job failed.
pub open spec fn state_after(outcome: JobOutcome) -> WorkerLifecycleState {
    match outcome {
        JobOutcome::Completed => WorkerLifecycleState::Idle,
        JobOutcome::Cancelled => WorkerLifecycleState::Idle,
        JobOutcome::Failed(_) => WorkerLifecycleState::IdleFailed,
    }
}

/// The session: all workers and their jobs.
pub struct Session {
    pub(crate) event_bus: EventBus,
    pub(crate) model_provider_count: usize,
    pub(crate) workers: Vec<Worker>,
    pub(crate) jobs: Vec<JobRecord>,
}

impl Session {
    /// The workers, in the order they were made.
    pub closed spec fn workers_view(&self) -> Seq<Worker> {
        self.workers@
    }

    /// The jobs, in the order they were launched.
    pub closed spec fn jobs_view(&self) -> Seq<JobRecord> {
        self.jobs@
    }

    /// The events published through the session's bus.
    pub closed spec fn published(&self) -> Seq<AgentEnvironmentEvent> {
        self.event_bus.published()
    }

    /// The number of model providers available to new workers.
    pub closed spec fn providers(&self) -> usize {
        self.model_provider_count
    }

    /// A session without workers or jobs.
    pub fn new(event_bus: EventBus, model_provider_count: usize) -> (s: Session)
        ensures
            s.workers_view() == Seq::<Worker>::empty(),
            s.jobs_view() == Seq::<JobRecord>::empty(),
            s.published() == event_bus.published(),
            s.providers() == model_provider_count,
    {
        Session { event_bus, model_provider_count, workers: Vec::new(), jobs: Vec::new() }
    }

    /// The event bus.
    pub fn event_bus(&self) -> (b: &EventBus)
        ensures
            b.published() == self.published(),
    {
        &self.event_bus
    }

    /// The number of model providers.
    pub fn model_provider_count(&self) -> (n: usize)
        ensures
            n == self.providers(),
    {
        self.model_provider_count
    }

    /// Publishes an event on the session's bus.
    pub fn publish(&mut self, event: AgentEnvironmentEvent)
        ensures
            final(self).published() == old(self).published().push(event),
            final(self).workers_view() == old(self).workers_view(),
            final(self).jobs_view() == old(self).jobs_view(),
            final(self).providers() == old(self).providers(),
    {
        self.event_bus.publish(event);
    }

    /// The position of the first worker with identifier `worker_id`.
    pub fn worker_index(&self, worker_id: u128) -> (r: Option<usize>)
        ensures
            match r {
                Some(i) => first_worker(self.workers_view(), worker_id, i as int),
                None => !has_worker(self.workers_view(), worker_id),
            },
    {
        let mut i: usize = 0;
        while i < self.workers.len()
            invariant
                i <= self.workers@.len(),
                forall|j: int| 0 <= j < i ==> self.workers@[j].id != worker_id,
            decreases self.workers.len() - i,
        {
            if self.workers[i].id == worker_id {
                return Some(i);
            }
            i = i + 1;
        }
        None
    }

    /// Makes a worker, publishes that it was created, and returns its identifier. The
    /// session needs a model provider for its workers.
    pub fn build_worker(&mut self, name: String) -> (id: u128)
        requires
            old(self).providers() > 0,
        ensures
            is_random_id(id),
            final(self).workers_view().len() == old(self).workers_view().len() + 1,
            final(self).workers_view().drop_last() == old(self).workers_view(),
            final(self).workers_view().last().id == id,
            is_fresh_worker(final(self).workers_view().last(), name),
            final(self).jobs_view() == old(self).jobs_view(),
            final(self).providers() == old(self).providers(),
            one_more(old(self).published(), final(self).published()),
            final(self).published().last() matches AgentEnvironmentEvent::Worker(
                WorkerEvent::Created { worker_id, name: n, .. },
            ) && worker_id == id && n == name,
    {
        let event_name = name.clone();
        let worker = Worker::new(name);
        let id = worker.id;
        self.workers.push(worker);
        let t = now();
        self.event_bus.publish(
            AgentEnvironmentEvent::Worker(WorkerEvent::Created { worker_id: id, name: event_name, timestamp: t }),
        );
        assert(self.workers@.drop_last() =~= old(self).workers@);
        assert(self.published().drop_last() =~= old(self).published());
        id
    }

    /// Moves the first worker with identifier `worker_id` to a lifecycle state and
    /// publishes the change; does nothing when there is no such worker.
    pub fn set_worker_lifecycle_state(&mut self, worker_id: u128, new_state: WorkerLifecycleState)
        ensures
            final(self).workers_view() == lifecycle_set(old(self).workers_view(), worker_id, new_state),
            final(self).jobs_view() == old(self).jobs_view(),
            final(self).providers() == old(self).providers(),
            lifecycle_published(old(self).published(), final(self).published(), old(self).workers_view(), worker_id, new_state),
    {
        match self.worker_index(worker_id) {
            Some(i) => {
                proof {
                    lemma_first_worker_unique(self.workers@, worker_id, i as int);
                }
                let old_state = self.workers[i].lifecycle_state;
                self.workers[i].lifecycle_state = new_state;
                let t = now();
                self.event_bus.publish(
                    AgentEnvironmentEvent::Worker(
                        WorkerEvent::LifecycleStateChanged { worker_id, old_state, new_state, timestamp: t },
                    ),
                );
                assert(self.workers@ =~= lifecycle_set(old(self).workers@, worker_id, new_state));
                assert(self.published().drop_last() =~= old(self).published());
            },
            None => {},
        }
    }

    /// The first worker with identifier `worker_id`.
    pub fn get_worker(&self, worker_id: u128) -> (r: Option<&Worker>)
        ensures
            match r {
                Some(w) => has_worker(self.workers_view(), worker_id) && *w == self.workers_view()[first_worker_index(
                    self.workers_view(),
                    worker_id,
                )],
                None => !has_worker(self.workers_view(), worker_id),
            },
    {
        match self.worker_index(worker_id) {
            Some(i) => {
                proof {
                    lemma_first_worker_unique(self.workers@, worker_id, i as int);
                }
                Some(&self.workers[i])
            },
            None => None,
        }
    }

    /// All workers, in the order they were made.
    pub fn get_workers(&self) -> (r: &Vec<Worker>)
        ensures
            r@ == self.workers_view(),
    {
        &self.workers
    }

    /// Cancels every job of worker `worker_id`.
    pub fn cancel_worker_jobs(&mut self, worker_id: u128)
        ensures
            jobs_cancelled(old(self).jobs_view(), final(self).jobs_view(), worker_id),
            final(self).workers_view() == old(self).workers_view(),
            final(self).published() == old(self).published(),
            final(self).providers() == old(self).providers(),
    {
        let mut i: usize = 0;
        while i < self.jobs.len()
            invariant
                i <= self.jobs@.len() == old(self).jobs@.len(),
                forall|k: int| 0 <= k < i ==> if old(self).jobs@[k].worker_id == worker_id {
                    cancelled(old(self).jobs@[k], #[trigger] self.jobs@[k])
                } else {
                    self.jobs@[k] == old(self).jobs@[k]
                },
                forall|k: int| i <= k < self.jobs@.len() ==> self.jobs@[k] == old(self).jobs@[k],
                self.workers == old(self).workers,
                self.event_bus == old(self).event_bus,
                self.model_provider_count == old(self).model_provider_count,
            decreases self.jobs.len() - i,
        {
            if self.jobs[i].worker_id == worker_id {
                self.jobs[i].cancellation_token.cancel();
            }
            i = i + 1;
        }
    }

    /// Cancels every job.
    pub fn cancel_all_jobs(&mut self)
        ensures
            final(self).jobs_view().len() == old(self).jobs_view().len(),
            forall|k: int|
                0 <= k < old(self).jobs_view().len() ==> cancelled(
                    old(self).jobs_view()[k],
                    #[trigger] final(self).jobs_view()[k],
                ),
            final(self).workers_view() == old(self).workers_view(),
            final(self).published() == old(self).published(),
            final(self).providers() == old(self).providers(),
    {
        let mut i: usize = 0;
        while i < self.jobs.len()
            invariant
                i <= self.jobs@.len() == old(self).jobs@.len(),
                forall|k: int| 0 <= k < i ==> cancelled(old(self).jobs@[k], #[trigger] self.jobs@[k]),
                forall|k: int| i <= k < self.jobs@.len() ==> self.jobs@[k] == old(self).jobs@[k],
                self.workers == old(self).workers,
                self.event_bus == old(self).event_bus,
                self.model_provider_count == old(self).model_provider_count,
            decreases self.jobs.len() - i,
        {
            self.jobs[i].cancellation_token.cancel();
            i = i + 1;
        }
    }

    /// Deletes every worker with identifier `worker_id` after cancelling its jobs, and
    /// publishes the deletion.
    pub fn delete_worker(&mut self, worker_id: u128)
        ensures
            final(self).workers_view() == old(self).workers_view().filter(|w: Worker| w.id != worker_id),
            jobs_cancelled(old(self).jobs_view(), final(self).jobs_view(), worker_id),
            final(self).providers() == old(self).providers(),
            one_more(old(self).published(), final(self).published()),
            final(self).published().last() matches AgentEnvironmentEvent::Worker(
                WorkerEvent::Deleted { worker_id: id, .. },
            ) && id == worker_id,
    {
        self.cancel_worker_jobs(worker_id);
        let ghost orig = self.workers@;
        let mut rest: Vec<Worker> = Vec::new();
        std::mem::swap(&mut rest, &mut self.workers);
        let mut kept: Vec<Worker> = Vec::new();
        let ghost mut k: int = 0;
        while rest.len() > 0
            invariant
                0 <= k <= orig.len(),
                rest@ == orig.skip(k),
                kept@ == orig.take(k).filter(|w: Worker| w.id != worker_id),
            decreases rest.len(),
        {
            let w = rest.remove(0);
            proof {
                assert(orig.take(k + 1).drop_last() =~= orig.take(k));
                assert(orig.take(k + 1).last() == w);
                reveal_with_fuel(Seq::filter, 1);
            }
            if w.id != worker_id {
                kept.push(w);
            }
            proof {
                assert(rest@ =~= orig.skip(k + 1));
                k = k + 1;
            }
        }
        assert(orig.take(k) =~= orig);
        self.workers = kept;
        let t = now();
        self.event_bus.publish(AgentEnvironmentEvent::Worker(WorkerEvent::Deleted { worker_id, timestamp: t }));
        assert(self.published().drop_last() =~= old(self).published());
    }
}

/// The number of running jobs.
pub open spec fn active_count(js: Seq<JobRecord>) -> nat {
    active_jobs(js).len()
}

/// Some job still runs.
pub open spec fn any_active(js: Seq<JobRecord>) -> bool {
    exists|i: int| 0 <= i < js.len() && js[i].active
}

pub(crate) proof fn lemma_filters_split(js: Seq<JobRecord>)
    ensures
        active_jobs(js).len() + inactive_jobs(js).len() == js.len(),
        active_jobs(js).len() > 0 <==> any_active(js),
    decreases js.len(),
{
    reveal_with_fuel(Seq::filter, 1);
    if js.len() > 0 {
        let t = js.drop_last();
        lemma_filters_split(t);
        if any_active(js) && !js.last().active {
            let i = choose|i: int| 0 <= i < js.len() && js[i].active;
            assert(t[i].active);
        }
        if any_active(t) {
            let i = choose|i: int| 0 <= i < t.len() && t[i].active;
            assert(js[i].active);
        }
    } else {
        assert(active_jobs(js) =~= Seq::<JobRecord>::empty());
    }
}

impl Session {
    /// Launches an agent loop for worker `worker_id`: the worker becomes busy, the start of
    /// the job is published, and the job is recorded as running.
    #[allow(non_snake_case)]
    pub fn run_task__agent_loop(&mut self, worker_id: u128, input: AgentLoopInput) -> (t: JobTicket)
        ensures
            t.worker_id == worker_id,
            final(self).workers_view() == lifecycle_set(old(self).workers_view(), worker_id, WorkerLifecycleState::Busy),
            final(self).providers() == old(self).providers(),
            final(self).published().len() > 0,
            lifecycle_published(
                old(self).published(),
                final(self).published().drop_last(),
                old(self).workers_view(),
                worker_id,
                WorkerLifecycleState::Busy,
            ),
            final(self).published().last() matches AgentEnvironmentEvent::Job(
                JobEvent::Started { worker_id: w, task_type, .. },
            ) && w == worker_id && task_type@ == "AgentLoop"@,
            final(self).jobs_view().len() == old(self).jobs_view().len() + 1,
            final(self).jobs_view().drop_last() == old(self).jobs_view(),
            final(self).jobs_view().last().job_id == t.job_id,
            final(self).jobs_view().last().worker_id == worker_id,
            final(self).jobs_view().last().active,
            !final(self).jobs_view().last().cancellation_token.cancel_requested(),
            t.cancellation_token.state() == final(self).jobs_view().last().cancellation_token.state(),
            !t.cancellation_token.cancel_requested(),
    {
        self.set_worker_lifecycle_state(worker_id, WorkerLifecycleState::Busy);
        let ghost mid = self.published();
        let token = JobToken::new();
        let job_id = new_id();
        let started_id = new_id();
        let t = now();
        self.event_bus.publish(
            AgentEnvironmentEvent::Job(
                JobEvent::Started { worker_id, job_id: started_id, task_type: owned("AgentLoop"), timestamp: t },
            ),
        );
        proof {
            reveal_strlit("AgentLoop");
            assert(self.published().drop_last() =~= mid);
        }
        let ticket = JobTicket { job_id, worker_id, cancellation_token: token.share() };
        self.jobs.push(JobRecord { job_id, worker_id, active: true, cancellation_token: token });
        assert(self.jobs@.drop_last() =~= old(self).jobs@);
        ticket
    }

    /// Records that job `job_id` has ended.
    pub fn job_finished(&mut self, job_id: u128)
        ensures
            final(self).jobs_view() == finish_job_spec(old(self).jobs_view(), job_id),
            final(self).workers_view() == old(self).workers_view(),
            final(self).published() == old(self).published(),
            final(self).providers() == old(self).providers(),
    {
        let mut i: usize = 0;
        while i < self.jobs.len()
            invariant
                i <= self.jobs@.len() == old(self).jobs@.len(),
                forall|k: int| 0 <= k < i ==> self.jobs@[k] == (if old(self).jobs@[k].job_id == job_id {
                    JobRecord { active: false, ..old(self).jobs@[k] }
                } else {
                    old(self).jobs@[k]
                }),
                forall|k: int| i <= k < self.jobs@.len() ==> self.jobs@[k] == old(self).jobs@[k],
                self.workers == old(self).workers,
                self.event_bus == old(self).event_bus,
                self.model_provider_count == old(self).model_provider_count,
            decreases self.jobs.len() - i,
        {
            if self.jobs[i].job_id == job_id {
                self.jobs[i].active = false;
            }
            i = i + 1;
        }
        assert(self.jobs@ =~= finish_job_spec(old(self).jobs@, job_id));
    }

    /// Handles the end of a job of worker `worker_id`: reports its result (with the
    /// worker's metadata when it completed, and whether it waits for a tool approval),
    /// returns the worker to idle (or to failed), and publishes the completion.
    pub fn handle_job_completion(&mut self, worker_id: u128, result: JobOutcome)
        ensures
            final(self).workers_view() == lifecycle_set(old(self).workers_view(), worker_id, state_after(result)),
            final(self).jobs_view() == old(self).jobs_view(),
            final(self).providers() == old(self).providers(),
            final(self).published().len() > 0,
            lifecycle_published(
                old(self).published(),
                final(self).published().drop_last(),
                old(self).workers_view(),
                worker_id,
                state_after(result),
            ),
            final(self).published().last() matches AgentEnvironmentEvent::Job(
                JobEvent::Completed { worker_id: w, result: r, .. },
            ) && w == worker_id && completion_matches(r, result, worker_metadata(old(self).workers_view(), worker_id)),
    {
        let ghost meta = worker_metadata(self.workers@, worker_id);
        let task_metadata = match self.get_worker(worker_id) {
            Some(w) => w.task_metadata.duplicate(),
            None => TaskMetadata::new(),
        };
        let (completion_result, new_state) = match result {
            JobOutcome::Completed => {
                let state = task_metadata.get_str(crate::worker::task_metadata_keys::AGENT_LOOP_COMPLETION_STATE);
                proof {
                    reveal_strlit("agent_loop.completion_state");
                    reveal_strlit("completed_with_tool_request");
                }
                let user_interaction_required = match state {
                    Some(s) => {
                        if str_eq(s.as_str(), "completed_with_tool_request") {
                            UserInteractionRequired::ToolApproval
                        } else {
                            UserInteractionRequired::NotRequired
                        }
                    },
                    None => UserInteractionRequired::NotRequired,
                };
                (
                    JobCompletionResult::Success { task_metadata, user_interaction_required },
                    WorkerLifecycleState::Idle,
                )
            },
            JobOutcome::Cancelled => (JobCompletionResult::Cancelled, WorkerLifecycleState::Idle),
            JobOutcome::Failed(e) => (JobCompletionResult::Failed { error: e }, WorkerLifecycleState::IdleFailed),
        };
        assert(completion_matches(completion_result, result, meta));
        self.set_worker_lifecycle_state(worker_id, new_state);
        let ghost mid = self.published();
        let job_id = new_id();
        let t = now();
        self.event_bus.publish(
            AgentEnvironmentEvent::Job(
                JobEvent::Completed { worker_id, job_id, result: completion_result, timestamp: t },
            ),
        );
        assert(self.published().drop_last() =~= mid);
    }

    /// Keeps every running job and only the most recent finished ones, at most
    /// `MAX_INACTIVE_JOBS`, each group in its order.
    pub fn cleanup_inactive_jobs(&mut self)
        ensures
            final(self).jobs_view() == cleanup_spec(old(self).jobs_view()),
            final(self).workers_view() == old(self).workers_view(),
            final(self).published() == old(self).published(),
            final(self).providers() == old(self).providers(),
    {
        let ghost orig = self.jobs@;
        let mut rest: Vec<JobRecord> = Vec::new();
        std::mem::swap(&mut rest, &mut self.jobs);
        let mut active: Vec<JobRecord> = Vec::new();
        let mut inactive: Vec<JobRecord> = Vec::new();
        let ghost mut k: int = 0;
        while rest.len() > 0
            invariant
                0 <= k <= orig.len(),
                rest@ == orig.skip(k),
                active@ == active_jobs(orig.take(k)),
                inactive@ == inactive_jobs(orig.take(k)),
            decreases rest.len(),
        {
            let j = rest.remove(0);
            proof {
                assert(orig.take(k + 1).drop_last() =~= orig.take(k));
                assert(orig.take(k + 1).last() == j);
                reveal_with_fuel(Seq::filter, 1);
            }
            if j.active {
                active.push(j);
            } else {
                inactive.push(j);
            }
            proof {
                assert(rest@ =~= orig.skip(k + 1));
                k = k + 1;
            }
        }
        assert(orig.take(k) =~= orig);
        let ghost all_inactive = inactive@;
        let ghost mut dropped: int = 0;
        while inactive.len() > MAX_INACTIVE_JOBS
            invariant
                0 <= dropped <= all_inactive.len(),
                inactive@ == all_inactive.skip(dropped),
                dropped == 0 || all_inactive.len() - dropped >= MAX_INACTIVE_JOBS,
            decreases inactive.len(),
        {
            let _ = inactive.remove(0);
            proof {
                assert(inactive@ =~= all_inactive.skip(dropped + 1));
                dropped = dropped + 1;
            }
        }
        proof {
            let keep_from = if all_inactive.len() > MAX_INACTIVE_JOBS {
                all_inactive.len() - MAX_INACTIVE_JOBS
            } else {
                0
            };
            assert(dropped == keep_from);
        }
        active.append(&mut inactive);
        self.jobs = active;
    }

    /// The numbers of running and of finished jobs.
    pub fn get_job_counts(&self) -> (r: (usize, usize))
        ensures
            r.0 == active_jobs(self.jobs_view()).len(),
            r.1 == inactive_jobs(self.jobs_view()).len(),
            r.0 + r.1 == self.jobs_view().len(),
    {
        let mut active: usize = 0;
        let mut i: usize = 0;
        while i < self.jobs.len()
            invariant
                i <= self.jobs@.len(),
                active == active_jobs(self.jobs@.take(i as int)).len(),
                active <= i,
            decreases self.jobs.len() - i,
        {
            proof {
                assert(self.jobs@.take(i + 1).drop_last() =~= self.jobs@.take(i as int));
                reveal_with_fuel(Seq::filter, 1);
            }
            if self.jobs[i].active {
                active = active + 1;
            }
            i = i + 1;
        }
        assert(self.jobs@.take(i as int) =~= self.jobs@);
        proof {
            lemma_filters_split(self.jobs@);
        }
        (active, self.jobs.len() - active)
    }

    /// Whether some job still runs.
    pub fn has_active_jobs(&self) -> (b: bool)
        ensures
            b == any_active(self.jobs_view()),
    {
        let mut i: usize = 0;
        while i < self.jobs.len()
            invariant
                i <= self.jobs@.len(),
                forall|k: int| 0 <= k < i ==> !self.jobs@[k].active,
            decreases self.jobs.len() - i,
        {
            if self.jobs[i].active {
                return true;
            }
            i = i + 1;
        }
        false
    }

    /// Adds a prompt to the conversation of the first worker with identifier `worker_id`;
    /// false when there is no such worker.
    pub fn push_input_message(&mut self, worker_id: u128, text: String) -> (found: bool)
        ensures
            found == has_worker(old(self).workers_view(), worker_id),
            found ==> {
                let i = first_worker_index(old(self).workers_view(), worker_id);
                let w = old(self).workers_view()[i];
                final(self).workers_view() == old(self).workers_view().update(
                    i,
                    Worker {
                        context_container: crate::context::ContextContainer {
                            conversation_history: final(self).workers_view()[i].context_container.conversation_history,
                            ..w.context_container
                        },
                        ..w
                    },
                ) && final(self).workers_view()[i].context_container.conversation_history@
                    == crate::conversation::with_input(
                    w.context_container.conversation_history@,
                    crate::conversation::UserMessage {
                        content: crate::conversation::UserMessageContent::Prompt { prompt: text },
                        timestamp: None,
                    },
                )
            },
            !found ==> *final(self) == *old(self),
            final(self).jobs_view() == old(self).jobs_view(),
            final(self).published() == old(self).published(),
            final(self).providers() == old(self).providers(),
    {
        match self.worker_index(worker_id) {
            Some(i) => {
                proof {
                    lemma_first_worker_unique(self.workers@, worker_id, i as int);
                }
                self.workers[i].context_container.conversation_history.push_input_message(text);
                assert(self.workers@ =~= old(self).workers@.update(
                    i as int,
                    Worker {
                        context_container: crate::context::ContextContainer {
                            conversation_history: self.workers@[i as int].context_container.conversation_history,
                            ..old(self).workers@[i as int].context_container
                        },
                        ..old(self).workers@[i as int]
                    },
                ));
                true
            },
            None => false,
        }
    }
}

// The steps of an agent loop round.
impl Session {
    /// The start of an agent loop: a cancelled job fails with `Cancelled`; otherwise the
    /// worker's failure is cleared and it starts working.
    pub fn agent_loop_start(&mut self, worker_id: u128, cancelled: bool) -> (r: Result<(), String>)
        requires
            has_worker(old(self).workers_view(), worker_id),
        ensures
            cancelled ==> (r matches Err(e) && e@ == "Cancelled"@ && *final(self) == *old(self)),
            !cancelled ==> {
                let i = first_worker_index(old(self).workers_view(), worker_id);
                let w = old(self).workers_view()[i];
                &&& r is Ok
                &&& final(self).workers_view() == old(self).workers_view().update(
                    i,
                    Worker { state: WorkerStates::Working, last_failure: final(self).workers_view()[i].last_failure, ..w },
                )
                &&& final(self).workers_view()[i].last_failure matches Some(f) && f@.len() == 0
                &&& final(self).jobs_view() == old(self).jobs_view()
                &&& final(self).published() == old(self).published()
            },
    {
        proof {
            reveal_strlit("Cancelled");
        }
        if cancelled {
            return Err(owned("Cancelled"));
        }
        let i = self.worker_index(worker_id).unwrap();
        proof {
            lemma_first_worker_unique(self.workers@, worker_id, i as int);
        }
        self.workers[i].last_failure = Some(String::new());
        self.workers[i].state = WorkerStates::Working;
        assert(self.workers@ =~= old(self).workers@.update(
            i as int,
            Worker { state: WorkerStates::Working, last_failure: self.workers@[i as int].last_failure, ..old(self).workers@[i as int] },
        ));
        Ok(())
    }

    /// The messages for the model request: a cancelled job, a worker without an operating
    /// system handle, or an empty conversation fail, in that order.
    pub fn agent_loop_messages(&self, worker_id: u128, cancelled: bool, has_os: bool) -> (r: Result<
        Vec<ConversationMessage>,
        String,
    >)
        requires
            has_worker(self.workers_view(), worker_id),
        ensures
            ({
                let w = self.workers_view()[first_worker_index(self.workers_view(), worker_id)];
                let h = w.context_container.conversation_history@;
                if cancelled {
                    r matches Err(e) && e@ == "Cancelled"@
                } else if !has_os {
                    r matches Err(e) && e@ == "Os not available in worker"@
                } else if h.len() == 0 {
                    r matches Err(e) && e@ == "No messages in conversation history"@
                } else {
                    r matches Ok(v) && messages_view(v@) == history_messages(h)
                }
            }),
    {
        proof {
            reveal_strlit("Cancelled");
            reveal_strlit("Os not available in worker");
        }
        if cancelled {
            return Err(owned("Cancelled"));
        }
        if !has_os {
            return Err(owned("Os not available in worker"));
        }
        let i = self.worker_index(worker_id).unwrap();
        proof {
            lemma_first_worker_unique(self.workers@, worker_id, i as int);
        }
        match ContextBuilder::build_messages(&self.workers[i].context_container) {
            Ok(v) => Ok(v),
            Err(e) => Err(e.message()),
        }
    }

    /// The model request: the messages, the worker's agent prompt and the loaded
    /// resources. The worker moves to `Requesting`; without a model provider the request
    /// fails after that.
    pub fn agent_loop_request(
        &mut self,
        worker_id: u128,
        messages: Vec<ConversationMessage>,
        context: Option<String>,
        has_model_provider: bool,
    ) -> (r: Result<ModelRequest, String>)
        requires
            has_worker(old(self).workers_view(), worker_id),
        ensures
            ({
                let i = first_worker_index(old(self).workers_view(), worker_id);
                let w = old(self).workers_view()[i];
                &&& final(self).workers_view() == old(self).workers_view().update(
                    i,
                    Worker { state: WorkerStates::Requesting, ..w },
                )
                &&& final(self).jobs_view() == old(self).jobs_view()
                &&& final(self).published() == old(self).published()
                &&& if has_model_provider {
                    r matches Ok(req) && req.messages == messages && req.system_prompt
                        == w.context_container.agent_prompt && req.context == context
                        && req.conversation_id is None
                } else {
                    r matches Err(e) && e@ == "model_provider not available"@
                }
            }),
    {
        let i = self.worker_index(worker_id).unwrap();
        proof {
            lemma_first_worker_unique(self.workers@, worker_id, i as int);
            reveal_strlit("model_provider not available");
        }
        let system_prompt = self.workers[i].context_container.get_agent_prompt();
        self.workers[i].state = WorkerStates::Requesting;
        assert(self.workers@ =~= old(self).workers@.update(
            i as int,
            Worker { state: WorkerStates::Requesting, ..old(self).workers@[i as int] },
        ));
        if !has_model_provider {
            return Err(owned("model_provider not available"));
        }
        Ok(ModelRequest { messages, system_prompt, context, conversation_id: None })
    }

    /// The model began to answer: the worker moves to `Receiving`.
    pub fn agent_loop_receiving(&mut self, worker_id: u128)
        requires
            has_worker(old(self).workers_view(), worker_id),
        ensures
            ({
                let i = first_worker_index(old(self).workers_view(), worker_id);
                final(self).workers_view() == old(self).workers_view().update(
                    i,
                    Worker { state: WorkerStates::Receiving, ..old(self).workers_view()[i] },
                )
            }),
            final(self).jobs_view() == old(self).jobs_view(),
            final(self).published() == old(self).published(),
    {
        let i = self.worker_index(worker_id).unwrap();
        proof {
            lemma_first_worker_unique(self.workers@, worker_id, i as int);
        }
        self.workers[i].state = WorkerStates::Receiving;
        assert(self.workers@ =~= old(self).workers@.update(
            i as int,
            Worker { state: WorkerStates::Receiving, ..old(self).workers@[i as int] },
        ));
    }

    /// A streamed piece of the response: text is published as an output chunk; tool use
    /// requests are not published here.
    pub fn agent_loop_chunk(&mut self, worker_id: u128, job_id: u128, chunk: ModelResponseChunk)
        ensures
            final(self).workers_view() == old(self).workers_view(),
            final(self).jobs_view() == old(self).jobs_view(),
            match chunk {
                ModelResponseChunk::AssistantMessage(text) => {
                    &&& final(self).published().len() == old(self).published().len() + 1
                    &&& final(self).published().drop_last() == old(self).published()
                    &&& final(self).published().last() matches AgentEnvironmentEvent::Job(
                        JobEvent::OutputChunk { worker_id: w, job_id: j, chunk: OutputChunk::AssistantResponse(t), .. },
                    ) && w == worker_id && j == job_id && t == text
                },
                ModelResponseChunk::ToolUseRequest { .. } => final(self).published() == old(self).published(),
            },
    {
        match chunk {
            ModelResponseChunk::AssistantMessage(text) => {
                let t = now();
                self.publish(
                    AgentEnvironmentEvent::Job(
                        JobEvent::OutputChunk { worker_id, job_id, chunk: OutputChunk::AssistantResponse(text), timestamp: t },
                    ),
                );
                assert(self.published().drop_last() =~= old(self).published());
            },
            ModelResponseChunk::ToolUseRequest { .. } => {},
        }
    }

    /// The model request failed: unless the job was cancelled, the worker records the
    /// failure and becomes `InactiveFailed`; a cancelled job's worker becomes `Inactive`.
    /// The error is handed back.
    pub fn agent_loop_failed(&mut self, worker_id: u128, cancelled: bool, error: String) -> (r: String)
        requires
            has_worker(old(self).workers_view(), worker_id),
        ensures
            r == error,
            ({
                let i = first_worker_index(old(self).workers_view(), worker_id);
                let w = old(self).workers_view()[i];
                if cancelled {
                    final(self).workers_view() == old(self).workers_view().update(
                        i,
                        Worker { state: WorkerStates::Inactive, ..w },
                    )
                } else {
                    &&& final(self).workers_view() == old(self).workers_view().update(
                        i,
                        Worker { state: WorkerStates::InactiveFailed, last_failure: final(self).workers_view()[i].last_failure, ..w },
                    )
                    &&& final(self).workers_view()[i].last_failure matches Some(f) && f@ == "LLM request failed: "@ + error@
                }
            }),
            final(self).jobs_view() == old(self).jobs_view(),
            final(self).published() == old(self).published(),
    {
        let i = self.worker_index(worker_id).unwrap();
        proof {
            lemma_first_worker_unique(self.workers@, worker_id, i as int);
        }
        if !cancelled {
            let mut msg = owned("LLM request failed: ");
            msg.append(error.as_str());
            self.workers[i].last_failure = Some(msg);
            self.workers[i].state = WorkerStates::InactiveFailed;
            assert(self.workers@ =~= old(self).workers@.update(
                i as int,
                Worker { state: WorkerStates::InactiveFailed, last_failure: self.workers@[i as int].last_failure, ..old(self).workers@[i as int] },
            ));
        } else {
            self.workers[i].state = WorkerStates::Inactive;
            assert(self.workers@ =~= old(self).workers@.update(
                i as int,
                Worker { state: WorkerStates::Inactive, ..old(self).workers@[i as int] },
            ));
        }
        error
    }
}

impl Session {
    /// The end of an agent loop round: for each tool request an output chunk and a tool
    /// use request are published, then the complete response; the worker's conversation
    /// gets the response, its metadata the completion state, and it becomes `Inactive`.
    pub fn agent_loop_finish(&mut self, worker_id: u128, job_id: u128, response: ModelResponse)
        requires
            has_worker(old(self).workers_view(), worker_id),
        ensures
            final(self).published().len() == old(self).published().len() + 2 * response.tool_requests@.len() + 1,
            final(self).published().take(old(self).published().len() as int) == old(self).published(),
            crate::agent_loop::finish_events(
                final(self).published().skip(old(self).published().len() as int),
                worker_id,
                job_id,
                response,
            ),
            ({
                let i = first_worker_index(old(self).workers_view(), worker_id);
                let w = old(self).workers_view()[i];
                let nw = final(self).workers_view()[i];
                &&& final(self).workers_view() == old(self).workers_view().update(
                    i,
                    Worker {
                        context_container: crate::context::ContextContainer {
                            conversation_history: nw.context_container.conversation_history,
                            ..w.context_container
                        },
                        task_metadata: nw.task_metadata,
                        state: WorkerStates::Inactive,
                        ..w
                    },
                )
                &&& nw.context_container.conversation_history@ == crate::conversation::with_reply(
                    w.context_container.conversation_history@,
                    crate::conversation::AssistantMessage::Response { message_id: None, content: response.content },
                )
                &&& nw.task_metadata@.dom() == w.task_metadata@.dom().insert("agent_loop.completion_state"@)
                &&& forall|k: Seq<char>| k != "agent_loop.completion_state"@ && #[trigger] w.task_metadata@.contains_key(k)
                    ==> nw.task_metadata@[k] == w.task_metadata@[k]
                &&& value_text(nw.task_metadata@["agent_loop.completion_state"@]) == Some(
                    crate::agent_loop::completion_state(response),
                )
            }),
            final(self).jobs_view() == old(self).jobs_view(),
            final(self).providers() == old(self).providers(),
    {
        let ghost base = self.published();
        let n = response.tool_requests.len();
        let mut i: usize = 0;
        while i < n
            invariant
                i <= n == response.tool_requests@.len(),
                self.published().len() == base.len() + 2 * i,
                self.published().take(base.len() as int) == base,
                self.workers == old(self).workers,
                self.jobs == old(self).jobs,
                self.model_provider_count == old(self).model_provider_count,
                forall|k: int|
                    0 <= k < i ==> {
                        &&& (#[trigger] self.published()[base.len() + 2 * k]) matches AgentEnvironmentEvent::Job(
                            JobEvent::OutputChunk { worker_id: w, job_id: j, chunk: OutputChunk::ToolUse { tool_name, tool_input }, .. },
                        ) && w == worker_id && j == job_id && tool_name == response.tool_requests@[k].tool_name
                            && tool_input == tool_input_of(response.tool_requests@[k].parameters)
                        &&& self.published()[base.len() + 2 * k + 1] matches AgentEnvironmentEvent::AgentLoop(
                            AgentLoopEvent::ToolUseRequestReceived { worker_id: w, job_id: j, tool_name, tool_input, .. },
                        ) && w == worker_id && j == job_id && tool_name == response.tool_requests@[k].tool_name
                            && tool_input == tool_input_of(response.tool_requests@[k].parameters)
                    },
            decreases n - i,
        {
            let ghost before = self.published();
            let req = &response.tool_requests[i];
            let tool_input = ToolInput::from_parameters(&req.parameters);
            let t1 = now();
            self.event_bus.publish(
                AgentEnvironmentEvent::Job(
                    JobEvent::OutputChunk {
                        worker_id,
                        job_id,
                        chunk: OutputChunk::ToolUse { tool_name: req.tool_name.clone(), tool_input: tool_input.duplicate() },
                        timestamp: t1,
                    },
                ),
            );
            let t2 = now();
            self.event_bus.publish(
                AgentEnvironmentEvent::AgentLoop(
                    AgentLoopEvent::ToolUseRequestReceived {
                        worker_id,
                        job_id,
                        tool_name: req.tool_name.clone(),
                        tool_input,
                        timestamp: t2,
                    },
                ),
            );
            assert(self.published().take(base.len() as int) =~= base);
            assert forall|k: int| 0 <= k < i implies #[trigger] self.published()[base.len() + 2 * k] == before[base.len() + 2 * k]
                && self.published()[base.len() + 2 * k + 1] == before[base.len() + 2 * k + 1] by {}
            i = i + 1;
        }
        let t = now();
        self.event_bus.publish(
            AgentEnvironmentEvent::AgentLoop(
                AgentLoopEvent::ResponseReceived { worker_id, job_id, text: response.content.clone(), timestamp: t },
            ),
        );
        proof {
            let evs = self.published().skip(base.len() as int);
            assert(self.published().take(base.len() as int) =~= base);
            assert forall|k: int| 0 <= k < response.tool_requests@.len() implies #[trigger] evs[2 * k]
                == self.published()[base.len() + 2 * k] && evs[2 * k + 1] == self.published()[base.len() + 2 * k + 1] by {}
        }
        let has_tools = n > 0;
        let idx = self.worker_index(worker_id).unwrap();
        proof {
            lemma_first_worker_unique(self.workers@, worker_id, idx as int);
            reveal_strlit("completed_with_tool_request");
            reveal_strlit("completed_ready_for_prompt");
            reveal_strlit("agent_loop.completion_state");
        }
        let ModelResponse { content, tool_requests: _ } = response;
        self.workers[idx].context_container.conversation_history.push_assistant_message(
            crate::conversation::AssistantMessage::new_response(None, content),
        );
        let state = if has_tools {
            owned("completed_with_tool_request")
        } else {
            owned("completed_ready_for_prompt")
        };
        self.workers[idx].set_task_metadata(crate::worker::task_metadata_keys::AGENT_LOOP_COMPLETION_STATE, MetadataValue::String(state));
        self.workers[idx].state = WorkerStates::Inactive;
        proof {
            let w = old(self).workers@[idx as int];
            let nw = self.workers@[idx as int];
            assert(nw.task_metadata@ == w.task_metadata@.insert("agent_loop.completion_state"@, MetadataValue::String(state)));
            assert(nw.task_metadata@.dom() =~= w.task_metadata@.dom().insert("agent_loop.completion_state"@));
        }
        assert(self.workers@ =~= old(self).workers@.update(
            idx as int,
            Worker {
                context_container: crate::context::ContextContainer {
                    conversation_history: self.workers@[idx as int].context_container.conversation_history,
                    ..old(self).workers@[idx as int].context_container
                },
                task_metadata: self.workers@[idx as int].task_metadata,
                state: WorkerStates::Inactive,
                ..old(self).workers@[idx as int]
            },
        ));
    }
}

impl Session {
    /// Makes a worker as `build_worker` does and sets it up: its agent prompt when one is
    /// given, its resource references when there are any, and an initial prompt in its
    /// conversation when one is given. The session needs a model provider.
    pub fn build_configured_worker(
        &mut self,
        name: String,
        prompt: Option<String>,
        resources: Vec<String>,
        initial_input: Option<String>,
    ) -> (id: u128)
        requires
            old(self).providers() > 0,
        ensures
            is_random_id(id),
            final(self).workers_view().len() == old(self).workers_view().len() + 1,
            final(self).workers_view().drop_last() == old(self).workers_view(),
            ({
                let w = final(self).workers_view().last();
                let c = w.context_container;
                &&& w.id == id
                &&& w.name == name
                &&& w.lifecycle_state == WorkerLifecycleState::Idle
                &&& w.task_metadata@ == Map::<Seq<char>, MetadataValue>::empty()
                &&& w.state == WorkerStates::Inactive
                &&& w.last_failure is None
                &&& c.agent_prompt == prompt
                &&& c.resource_references@ == resources@
                &&& c.conversation_history@ == match initial_input {
                    Some(text) => seq![
                        crate::conversation::ConversationEntry {
                            user: Some(
                                crate::conversation::UserMessage {
                                    content: crate::conversation::UserMessageContent::Prompt { prompt: text },
                                    timestamp: None,
                                },
                            ),
                            assistant: None,
                        },
                    ],
                    None => Seq::<crate::conversation::ConversationEntry>::empty(),
                }
            }),
            final(self).jobs_view() == old(self).jobs_view(),
            final(self).providers() == old(self).providers(),
            one_more(old(self).published(), final(self).published()),
            final(self).published().last() matches AgentEnvironmentEvent::Worker(
                WorkerEvent::Created { worker_id, name: n, .. },
            ) && worker_id == id && n == name,
    {
        let id = self.build_worker(name);
        let i = self.workers.len() - 1;
        match prompt {
            Some(p) => self.workers[i].context_container.set_agent_prompt(p),
            None => {},
        }
        if resources.len() > 0 {
            self.workers[i].context_container.set_resource_references(resources);
        } else {
            assert(resources@ =~= Seq::<String>::empty());
        }
        match initial_input {
            Some(text) => {
                self.workers[i].context_container.conversation_history.push_input_message(text);
                assert(self.workers@[i as int].context_container.conversation_history@ =~= seq![
                    crate::conversation::ConversationEntry {
                        user: Some(
                            crate::conversation::UserMessage {
                                content: crate::conversation::UserMessageContent::Prompt { prompt: text },
                                timestamp: None,
                            },
                        ),
                        assistant: None,
                    },
                ]);
            },
            None => {},
        }
        assert(self.workers@.drop_last() =~= old(self).workers@);
        id
    }
}

impl Session {
    /// Sets a metadata value of the worker at position `index`.
    pub fn set_task_metadata_at(&mut self, index: usize, key: &str, value: MetadataValue)
        requires
            index < old(self).workers_view().len(),
        ensures
            ({
                let w = old(self).workers_view()[index as int];
                let nw = final(self).workers_view()[index as int];
                &&& final(self).workers_view() == old(self).workers_view().update(
                    index as int,
                    Worker { task_metadata: nw.task_metadata, ..w },
                )
                &&& nw.task_metadata@ == w.task_metadata@.insert(key@, value)
            }),
            final(self).jobs_view() == old(self).jobs_view(),
            final(self).published() == old(self).published(),
            final(self).providers() == old(self).providers(),
    {
        self.workers[index].set_task_metadata(key, value);
        assert(self.workers@ =~= old(self).workers@.update(
            index as int,
            Worker { task_metadata: self.workers@[index as int].task_metadata, ..old(self).workers@[index as int] },
        ));
    }
}

} // verus!
