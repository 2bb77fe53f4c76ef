//! Events that flow through the event bus: worker, job, agent loop, system and web UI
//! events, in one envelope.
use vstd::prelude::*;
use std::time::Instant;
use crate::metadata::TaskMetadata;

verus! {

#[verifier::external_type_specification]
#[verifier::external_body]
pub struct ExInstant(std::time::Instant);

/// `Instant`'s `clone`: `Instant` is `Copy`, so a clone is the same instant.
pub assume_specification[ <std::time::Instant as Clone>::clone ](t: &std::time::Instant) -> (r: std::time::Instant)
    ensures
        r == *t,
;

/// `Instant::now`: the current monotonic time. Nothing is known of the value.
#[verifier::external_body]
pub(crate) fn instant_now() -> (t: Instant) {
    Instant::now()
}

/// The current time, for stamping an event.
pub fn now() -> (t: Instant) {
    instant_now()
}

/// Worker lifecycle states (managed by the session).
#[derive(Clone, Copy, Debug, PartialEq, Eq, Structural)]
pub enum WorkerLifecycleState {
    /// Ready to accept a new job.
    Idle,
    /// Executing a job.
    Busy,
    /// The last job failed.
    IdleFailed,
}

impl Default for WorkerLifecycleState {
    fn default() -> (s: Self)
        ensures
            s == WorkerLifecycleState::Idle,
    {
        WorkerLifecycleState::Idle
    }
}

/// Whether a completed job waits for the user to continue.
#[derive(Clone, Copy, Debug, PartialEq, Eq, Structural)]
pub enum UserInteractionRequired {
    /// The job completed cleanly; nothing waits for the user.
    NotRequired,
    /// The job waits for the user to approve a tool use.
    ToolApproval,
}

/// What `serde_json::from_str::<serde_json::Value>` decides for a text: whether it is one
/// JSON value.
pub uninterp spec fn json_text_valid(text: Seq<char>) -> bool;

/// Whether `serde_json` parses the text as a JSON value.
#[verifier::external_body]
pub(crate) fn is_json_text(text: &str) -> (b: bool)
    ensures
        b == json_text_valid(text@),
{
    serde_json::from_str::<serde_json::Value>(text).is_ok()
}

/// The input of a tool use: its parameters text, which is either JSON (and stands for the
/// value it denotes) or other text (and stands for a JSON string holding it).
#[derive(Clone, Debug)]
pub enum ToolInput {
    Json(String),
    Text(String),
}

impl ToolInput {
    /// A copy of the input.
    pub fn duplicate(&self) -> (r: ToolInput)
        ensures
            r == *self,
    {
        match self {
            ToolInput::Json(s) => ToolInput::Json(s.clone()),
            ToolInput::Text(s) => ToolInput::Text(s.clone()),
        }
    }

    /// Reads tool parameters: as JSON when they parse, else as a plain string.
    pub fn from_parameters(parameters: &String) -> (r: ToolInput)
        ensures
            r == tool_input_of(*parameters),
    {
        if is_json_text(parameters.as_str()) {
            ToolInput::Json(parameters.clone())
        } else {
            ToolInput::Text(parameters.clone())
        }
    }
}

/// How tool parameters are read.
pub open spec fn tool_input_of(parameters: String) -> ToolInput {
    if json_text_valid(parameters@) {
        ToolInput::Json(parameters)
    } else {
        ToolInput::Text(parameters)
    }
}

/// How a job ended.
#[derive(Clone, Debug)]
pub enum JobCompletionResult {
    /// The job completed.
    Success { task_metadata: TaskMetadata, user_interaction_required: UserInteractionRequired },
    /// The job was cancelled.
    Cancelled,
    /// The job failed.
    Failed { error: String },
}

/// A piece of job output.
#[derive(Clone, Debug)]
pub enum OutputChunk {
    /// Text of the assistant's response.
    AssistantResponse(String),
    /// A tool use requested by the assistant.
    ToolUse { tool_name: String, tool_input: ToolInput },
    /// The result of a tool.
    ToolResult { tool_name: String, result: String },
}

/// Worker lifecycle events.
#[derive(Clone, Debug)]
pub enum WorkerEvent {
    Created { worker_id: u128, name: String, timestamp: Instant },
    Deleted { worker_id: u128, timestamp: Instant },
    LifecycleStateChanged {
        worker_id: u128,
        old_state: WorkerLifecycleState,
        new_state: WorkerLifecycleState,
        timestamp: Instant,
    },
}

/// Job events.
#[derive(Clone, Debug)]
pub enum JobEvent {
    Started { worker_id: u128, job_id: u128, task_type: String, timestamp: Instant },
    Completed { worker_id: u128, job_id: u128, result: JobCompletionResult, timestamp: Instant },
    OutputChunk { worker_id: u128, job_id: u128, chunk: OutputChunk, timestamp: Instant },
}

/// Agent loop events.
#[derive(Clone, Debug)]
pub enum AgentLoopEvent {
    /// The complete response of the model.
    ResponseReceived { worker_id: u128, job_id: u128, text: String, timestamp: Instant },
    /// A tool use requested by the model.
    ToolUseRequestReceived {
        worker_id: u128,
        job_id: u128,
        tool_name: String,
        tool_input: ToolInput,
        timestamp: Instant,
    },
}

/// System events.
#[derive(Clone, Debug)]
pub enum SystemEvent {
    ShutdownInitiated { reason: String, timestamp: Instant },
}

/// Web UI events.
#[derive(Clone, Debug)]
pub enum WebUIEvent {
    PromptReceived { worker_id: u128, text: String, timestamp: Instant },
    ServerStarted { address: String, timestamp: Instant },
    WebSocketConnected { timestamp: Instant },
}

/// The envelope of every event.
#[derive(Clone, Debug)]
pub enum AgentEnvironmentEvent {
    Worker(WorkerEvent),
    Job(JobEvent),
    AgentLoop(AgentLoopEvent),
    System(SystemEvent),
    WebUI(WebUIEvent),
}

/// The worker an event is about, if any.
pub open spec fn event_worker_id(e: AgentEnvironmentEvent) -> Option<u128> {
    match e {
        AgentEnvironmentEvent::Worker(WorkerEvent::Created { worker_id, .. }) => Some(worker_id),
        AgentEnvironmentEvent::Worker(WorkerEvent::Deleted { worker_id, .. }) => Some(worker_id),
        AgentEnvironmentEvent::Worker(WorkerEvent::LifecycleStateChanged { worker_id, .. }) => Some(worker_id),
        AgentEnvironmentEvent::Job(JobEvent::Started { worker_id, .. }) => Some(worker_id),
        AgentEnvironmentEvent::Job(JobEvent::Completed { worker_id, .. }) => Some(worker_id),
        AgentEnvironmentEvent::Job(JobEvent::OutputChunk { worker_id, .. }) => Some(worker_id),
        AgentEnvironmentEvent::AgentLoop(AgentLoopEvent::ResponseReceived { worker_id, .. }) => Some(worker_id),
        AgentEnvironmentEvent::AgentLoop(AgentLoopEvent::ToolUseRequestReceived { worker_id, .. }) => Some(
            worker_id,
        ),
        AgentEnvironmentEvent::WebUI(WebUIEvent::PromptReceived { worker_id, .. }) => Some(worker_id),
        AgentEnvironmentEvent::WebUI(WebUIEvent::ServerStarted { .. }) => None,
        AgentEnvironmentEvent::WebUI(WebUIEvent::WebSocketConnected { .. }) => None,
        AgentEnvironmentEvent::System(_) => None,
    }
}

/// The time stamp of an event.
pub open spec fn event_timestamp(e: AgentEnvironmentEvent) -> Instant {
    match e {
        AgentEnvironmentEvent::Worker(WorkerEvent::Created { timestamp, .. }) => timestamp,
        AgentEnvironmentEvent::Worker(WorkerEvent::Deleted { timestamp, .. }) => timestamp,
        AgentEnvironmentEvent::Worker(WorkerEvent::LifecycleStateChanged { timestamp, .. }) => timestamp,
        AgentEnvironmentEvent::Job(JobEvent::Started { timestamp, .. }) => timestamp,
        AgentEnvironmentEvent::Job(JobEvent::Completed { timestamp, .. }) => timestamp,
        AgentEnvironmentEvent::Job(JobEvent::OutputChunk { timestamp, .. }) => timestamp,
        AgentEnvironmentEvent::AgentLoop(AgentLoopEvent::ResponseReceived { timestamp, .. }) => timestamp,
        AgentEnvironmentEvent::AgentLoop(AgentLoopEvent::ToolUseRequestReceived { timestamp, .. }) => timestamp,
        AgentEnvironmentEvent::System(SystemEvent::ShutdownInitiated { timestamp, .. }) => timestamp,
        AgentEnvironmentEvent::WebUI(WebUIEvent::PromptReceived { timestamp, .. }) => timestamp,
        AgentEnvironmentEvent::WebUI(WebUIEvent::ServerStarted { timestamp, .. }) => timestamp,
        AgentEnvironmentEvent::WebUI(WebUIEvent::WebSocketConnected { timestamp, .. }) => timestamp,
    }
}

impl AgentEnvironmentEvent {
    /// The worker the event is about: every worker, job, agent loop and prompt event
    /// names one; system, server and connection events do not.
    pub fn worker_id(&self) -> (r: Option<u128>)
        ensures
            r == event_worker_id(*self),
    {
        match self {
            AgentEnvironmentEvent::Worker(WorkerEvent::Created { worker_id, .. }) => Some(*worker_id),
            AgentEnvironmentEvent::Worker(WorkerEvent::Deleted { worker_id, .. }) => Some(*worker_id),
            AgentEnvironmentEvent::Worker(WorkerEvent::LifecycleStateChanged { worker_id, .. }) => Some(
                *worker_id,
            ),
            AgentEnvironmentEvent::Job(JobEvent::Started { worker_id, .. }) => Some(*worker_id),
            AgentEnvironmentEvent::Job(JobEvent::Completed { worker_id, .. }) => Some(*worker_id),
            AgentEnvironmentEvent::Job(JobEvent::OutputChunk { worker_id, .. }) => Some(*worker_id),
            AgentEnvironmentEvent::AgentLoop(AgentLoopEvent::ResponseReceived { worker_id, .. }) => Some(
                *worker_id,
            ),
            AgentEnvironmentEvent::AgentLoop(
                AgentLoopEvent::ToolUseRequestReceived { worker_id, .. },
            ) => Some(*worker_id),
            AgentEnvironmentEvent::WebUI(WebUIEvent::PromptReceived { worker_id, .. }) => Some(*worker_id),
            AgentEnvironmentEvent::WebUI(WebUIEvent::ServerStarted { .. }) => None,
            AgentEnvironmentEvent::WebUI(WebUIEvent::WebSocketConnected { .. }) => None,
            AgentEnvironmentEvent::System(_) => None,
        }
    }

    /// Whether this is a worker event.
    pub fn is_worker_event(&self) -> (b: bool)
        ensures
            b == (*self is Worker),
    {
        matches!(self, AgentEnvironmentEvent::Worker(_))
    }

    /// Whether this is a job event.
    pub fn is_job_event(&self) -> (b: bool)
        ensures
            b == (*self is Job),
    {
        matches!(self, AgentEnvironmentEvent::Job(_))
    }

    /// Whether this is an agent loop event.
    pub fn is_agent_loop_event(&self) -> (b: bool)
        ensures
            b == (*self is AgentLoop),
    {
        matches!(self, AgentEnvironmentEvent::AgentLoop(_))
    }

    /// Whether this is a system event.
    pub fn is_system_event(&self) -> (b: bool)
        ensures
            b == (*self is System),
    {
        matches!(self, AgentEnvironmentEvent::System(_))
    }

    /// Whether this is a web UI event.
    pub fn is_webui_event(&self) -> (b: bool)
        ensures
            b == (*self is WebUI),
    {
        matches!(self, AgentEnvironmentEvent::WebUI(_))
    }

    /// The time stamp of the event.
    pub fn timestamp(&self) -> (t: Instant)
        ensures
            t == event_timestamp(*self),
    {
        match self {
            AgentEnvironmentEvent::Worker(WorkerEvent::Created { timestamp, .. }) => *timestamp,
            AgentEnvironmentEvent::Worker(WorkerEvent::Deleted { timestamp, .. }) => *timestamp,
            AgentEnvironmentEvent::Worker(WorkerEvent::LifecycleStateChanged { timestamp, .. }) => *timestamp,
            AgentEnvironmentEvent::Job(JobEvent::Started { timestamp, .. }) => *timestamp,
            AgentEnvironmentEvent::Job(JobEvent::Completed { timestamp, .. }) => *timestamp,
            AgentEnvironmentEvent::Job(JobEvent::OutputChunk { timestamp, .. }) => *timestamp,
            AgentEnvironmentEvent::AgentLoop(AgentLoopEvent::ResponseReceived { timestamp, .. }) => *timestamp,
            AgentEnvironmentEvent::AgentLoop(
                AgentLoopEvent::ToolUseRequestReceived { timestamp, .. },
            ) => *timestamp,
            AgentEnvironmentEvent::System(SystemEvent::ShutdownInitiated { timestamp, .. }) => *timestamp,
            AgentEnvironmentEvent::WebUI(WebUIEvent::PromptReceived { timestamp, .. }) => *timestamp,
            AgentEnvironmentEvent::WebUI(WebUIEvent::ServerStarted { timestamp, .. }) => *timestamp,
            AgentEnvironmentEvent::WebUI(WebUIEvent::WebSocketConnected { timestamp, .. }) => *timestamp,
        }
    }
}

} // verus!
