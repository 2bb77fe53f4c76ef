//! Events as the web interface sends them: identifiers as text and time stamps to be
//! turned into Unix seconds.
use vstd::prelude::*;
use std::time::Instant;
use crate::events::{
    AgentEnvironmentEvent, AgentLoopEvent, JobCompletionResult, JobEvent, OutputChunk, SystemEvent, ToolInput,
    UserInteractionRequired, WorkerEvent,
};
use crate::ids::{hyphenated, id_to_string};
use crate::metadata::{MetadataValue, TaskMetadata};
use crate::web::serialization::{ConversationEntryJson, WorkerMetadataJson};

verus! {

broadcast use vstd::string::group_string_axioms;

/// When an event happened, to be sent as seconds since the Unix epoch.
#[derive(Clone, Copy, Debug)]
pub enum Stamp {
    /// At this instant of the process's monotonic clock.
    At(Instant),
    /// At the moment the event is sent.
    Now,
    /// At this many seconds since the Unix epoch.
    UnixSeconds(i64),
}

/// Worker lifecycle state as the web interface names it.
#[derive(Clone, Copy, Debug, PartialEq, Eq, Structural)]
pub enum WorkerLifecycleState {
    Idle,
    Busy,
    IdleFailed,
}

/// The web name of a lifecycle state.
pub open spec fn web_state(s: crate::events::WorkerLifecycleState) -> WorkerLifecycleState {
    match s {
        crate::events::WorkerLifecycleState::Idle => WorkerLifecycleState::Idle,
        crate::events::WorkerLifecycleState::Busy => WorkerLifecycleState::Busy,
        crate::events::WorkerLifecycleState::IdleFailed => WorkerLifecycleState::IdleFailed,
    }
}

impl From<crate::events::WorkerLifecycleState> for WorkerLifecycleState {
    fn from(state: crate::events::WorkerLifecycleState) -> (r: Self) {
        match state {
            crate::events::WorkerLifecycleState::Idle => WorkerLifecycleState::Idle,
            crate::events::WorkerLifecycleState::Busy => WorkerLifecycleState::Busy,
            crate::events::WorkerLifecycleState::IdleFailed => WorkerLifecycleState::IdleFailed,
        }
    }
}

impl vstd::std_specs::convert::FromSpecImpl<crate::events::WorkerLifecycleState> for WorkerLifecycleState {
    open spec fn obeys_from_spec() -> bool {
        true
    }

    open spec fn from_spec(state: crate::events::WorkerLifecycleState) -> Self {
        web_state(state)
    }
}

/// A job result as the web interface sends it.
#[derive(Clone, Debug)]
pub enum JobResult {
    /// The job completed; its metadata is left out when there is none.
    Success { task_metadata: Option<TaskMetadata>, user_interaction_required: bool },
    Cancelled,
    Failed { error: String },
}

/// The web form of a job result.
pub open spec fn job_result_of(r: JobCompletionResult) -> JobResult {
    match r {
        JobCompletionResult::Success { task_metadata, user_interaction_required } => JobResult::Success {
            task_metadata: if task_metadata@ == Map::<Seq<char>, MetadataValue>::empty() {
                None
            } else {
                Some(task_metadata)
            },
            user_interaction_required: user_interaction_required == UserInteractionRequired::ToolApproval,
        },
        JobCompletionResult::Cancelled => JobResult::Cancelled,
        JobCompletionResult::Failed { error } => JobResult::Failed { error },
    }
}

impl From<JobCompletionResult> for JobResult {
    fn from(result: JobCompletionResult) -> (r: Self) {
        match result {
            JobCompletionResult::Success { task_metadata, user_interaction_required } => {
                let empty = task_metadata.is_empty();
                JobResult::Success {
                    task_metadata: if empty {
                        None
                    } else {
                        Some(task_metadata)
                    },
                    user_interaction_required: user_interaction_required == UserInteractionRequired::ToolApproval,
                }
            },
            JobCompletionResult::Cancelled => JobResult::Cancelled,
            JobCompletionResult::Failed { error } => JobResult::Failed { error },
        }
    }
}

impl vstd::std_specs::convert::FromSpecImpl<JobCompletionResult> for JobResult {
    open spec fn obeys_from_spec() -> bool {
        true
    }

    open spec fn from_spec(result: JobCompletionResult) -> Self {
        job_result_of(result)
    }
}

/// An output chunk as the web interface sends it.
#[derive(Clone, Debug)]
pub enum OutputChunkData {
    AssistantResponse { text: String },
    ToolUse { tool_name: String, tool_input: ToolInput },
    ToolResult { tool_name: String, result: String },
}

/// The web form of an output chunk.
pub open spec fn chunk_data_of(c: OutputChunk) -> OutputChunkData {
    match c {
        OutputChunk::AssistantResponse(text) => OutputChunkData::AssistantResponse { text },
        OutputChunk::ToolUse { tool_name, tool_input } => OutputChunkData::ToolUse { tool_name, tool_input },
        OutputChunk::ToolResult { tool_name, result } => OutputChunkData::ToolResult { tool_name, result },
    }
}

impl From<OutputChunk> for OutputChunkData {
    fn from(chunk: OutputChunk) -> (r: Self) {
        match chunk {
            OutputChunk::AssistantResponse(text) => OutputChunkData::AssistantResponse { text },
            OutputChunk::ToolUse { tool_name, tool_input } => OutputChunkData::ToolUse { tool_name, tool_input },
            OutputChunk::ToolResult { tool_name, result } => OutputChunkData::ToolResult { tool_name, result },
        }
    }
}

impl vstd::std_specs::convert::FromSpecImpl<OutputChunk> for OutputChunkData {
    open spec fn obeys_from_spec() -> bool {
        true
    }

    open spec fn from_spec(chunk: OutputChunk) -> Self {
        chunk_data_of(chunk)
    }
}

/// Events as the web interface sends them.
#[derive(Clone, Debug)]
pub enum WebUIEvent {
    WorkerCreated { worker_id: String, name: String, timestamp: Stamp },
    WorkerDeleted { worker_id: String, timestamp: Stamp },
    WorkerStateChanged {
        worker_id: String,
        old_state: WorkerLifecycleState,
        new_state: WorkerLifecycleState,
        timestamp: Stamp,
    },
    JobStarted { worker_id: String, job_id: String, task_type: String, timestamp: Stamp },
    JobCompleted { worker_id: String, job_id: String, result: JobResult, timestamp: Stamp },
    OutputChunk { worker_id: String, job_id: String, chunk: OutputChunkData, timestamp: Stamp },
    ResponseReceived { worker_id: String, job_id: String, text: String, timestamp: Stamp },
    ToolUseRequested {
        worker_id: String,
        job_id: String,
        tool_name: String,
        tool_input: ToolInput,
        timestamp: Stamp,
    },
    ShutdownInitiated { reason: String, timestamp: Stamp },
    PromptReceived { worker_id: String, text: String, timestamp: Stamp },
    ServerStarted { address: String, timestamp: Stamp },
    WebSocketConnected { timestamp: Stamp },
    WorkersSnapshot { workers: Vec<WorkerMetadataJson>, timestamp: Stamp },
    ConversationSnapshot { worker_id: String, entries: Vec<ConversationEntryJson>, timestamp: Stamp },
    Error { command: String, message: String, timestamp: Stamp },
}

/// `r` is the web form of `e`: the same kind of event with the same data, identifiers as
/// their hyphenated text and the time stamp kept.
pub open spec fn converts(e: AgentEnvironmentEvent, r: WebUIEvent) -> bool {
    match e {
        AgentEnvironmentEvent::Worker(WorkerEvent::Created { worker_id, name, timestamp }) => r matches WebUIEvent::WorkerCreated {
            worker_id: w,
            name: n,
            timestamp: Stamp::At(t),
        } && w@ == hyphenated(worker_id) && n == name && t == timestamp,
        AgentEnvironmentEvent::Worker(WorkerEvent::Deleted { worker_id, timestamp }) => r matches WebUIEvent::WorkerDeleted {
            worker_id: w,
            timestamp: Stamp::At(t),
        } && w@ == hyphenated(worker_id) && t == timestamp,
        AgentEnvironmentEvent::Worker(WorkerEvent::LifecycleStateChanged { worker_id, old_state, new_state, timestamp }) =>
            r matches WebUIEvent::WorkerStateChanged { worker_id: w, old_state: o, new_state: n, timestamp: Stamp::At(t) }
            && w@ == hyphenated(worker_id) && o == web_state(old_state) && n == web_state(new_state) && t == timestamp,
        AgentEnvironmentEvent::Job(JobEvent::Started { worker_id, job_id, task_type, timestamp }) => r matches WebUIEvent::JobStarted {
            worker_id: w,
            job_id: j,
            task_type: k,
            timestamp: Stamp::At(t),
        } && w@ == hyphenated(worker_id) && j@ == hyphenated(job_id) && k == task_type && t == timestamp,
        AgentEnvironmentEvent::Job(JobEvent::Completed { worker_id, job_id, result, timestamp }) => r matches WebUIEvent::JobCompleted {
            worker_id: w,
            job_id: j,
            result: x,
            timestamp: Stamp::At(t),
        } && w@ == hyphenated(worker_id) && j@ == hyphenated(job_id) && x == job_result_of(result) && t == timestamp,
        AgentEnvironmentEvent::Job(JobEvent::OutputChunk { worker_id, job_id, chunk, timestamp }) => r matches WebUIEvent::OutputChunk {
            worker_id: w,
            job_id: j,
            chunk: c,
            timestamp: Stamp::At(t),
        } && w@ == hyphenated(worker_id) && j@ == hyphenated(job_id) && c == chunk_data_of(chunk) && t == timestamp,
        AgentEnvironmentEvent::AgentLoop(AgentLoopEvent::ResponseReceived { worker_id, job_id, text, timestamp }) => r matches WebUIEvent::ResponseReceived {
            worker_id: w,
            job_id: j,
            text: x,
            timestamp: Stamp::At(t),
        } && w@ == hyphenated(worker_id) && j@ == hyphenated(job_id) && x == text && t == timestamp,
        AgentEnvironmentEvent::AgentLoop(
            AgentLoopEvent::ToolUseRequestReceived { worker_id, job_id, tool_name, tool_input, timestamp },
        ) => r matches WebUIEvent::ToolUseRequested {
            worker_id: w,
            job_id: j,
            tool_name: n,
            tool_input: i,
            timestamp: Stamp::At(t),
        } && w@ == hyphenated(worker_id) && j@ == hyphenated(job_id) && n == tool_name && i == tool_input && t
            == timestamp,
        AgentEnvironmentEvent::System(SystemEvent::ShutdownInitiated { reason, timestamp }) => r matches WebUIEvent::ShutdownInitiated {
            reason: x,
            timestamp: Stamp::At(t),
        } && x == reason && t == timestamp,
        AgentEnvironmentEvent::WebUI(crate::events::WebUIEvent::PromptReceived { worker_id, text, timestamp }) => r matches WebUIEvent::PromptReceived {
            worker_id: w,
            text: x,
            timestamp: Stamp::At(t),
        } && w@ == hyphenated(worker_id) && x == text && t == timestamp,
        AgentEnvironmentEvent::WebUI(crate::events::WebUIEvent::ServerStarted { address, timestamp }) => r matches WebUIEvent::ServerStarted {
            address: a,
            timestamp: Stamp::At(t),
        } && a == address && t == timestamp,
        AgentEnvironmentEvent::WebUI(crate::events::WebUIEvent::WebSocketConnected { timestamp }) => r matches WebUIEvent::WebSocketConnected {
            timestamp: Stamp::At(t),
        } && t == timestamp,
    }
}

/// The worker a web event is about, as text.
pub open spec fn web_event_worker(e: WebUIEvent) -> Option<String> {
    match e {
        WebUIEvent::WorkerCreated { worker_id, .. } => Some(worker_id),
        WebUIEvent::WorkerDeleted { worker_id, .. } => Some(worker_id),
        WebUIEvent::WorkerStateChanged { worker_id, .. } => Some(worker_id),
        WebUIEvent::JobStarted { worker_id, .. } => Some(worker_id),
        WebUIEvent::JobCompleted { worker_id, .. } => Some(worker_id),
        WebUIEvent::OutputChunk { worker_id, .. } => Some(worker_id),
        WebUIEvent::ResponseReceived { worker_id, .. } => Some(worker_id),
        WebUIEvent::ToolUseRequested { worker_id, .. } => Some(worker_id),
        WebUIEvent::PromptReceived { worker_id, .. } => Some(worker_id),
        WebUIEvent::ConversationSnapshot { worker_id, .. } => Some(worker_id),
        WebUIEvent::ShutdownInitiated { .. } => None,
        WebUIEvent::ServerStarted { .. } => None,
        WebUIEvent::WebSocketConnected { .. } => None,
        WebUIEvent::WorkersSnapshot { .. } => None,
        WebUIEvent::Error { .. } => None,
    }
}

impl WebUIEvent {
    /// The web form of an event.
    pub fn from_agent_event(event: AgentEnvironmentEvent) -> (r: WebUIEvent)
        ensures
            converts(event, r),
    {
        match event {
            AgentEnvironmentEvent::Worker(e) => match e {
                WorkerEvent::Created { worker_id, name, timestamp } => WebUIEvent::WorkerCreated {
                    worker_id: id_to_string(worker_id),
                    name,
                    timestamp: Stamp::At(timestamp),
                },
                WorkerEvent::Deleted { worker_id, timestamp } => WebUIEvent::WorkerDeleted {
                    worker_id: id_to_string(worker_id),
                    timestamp: Stamp::At(timestamp),
                },
                WorkerEvent::LifecycleStateChanged { worker_id, old_state, new_state, timestamp } =>
                    WebUIEvent::WorkerStateChanged {
                    worker_id: id_to_string(worker_id),
                    old_state: old_state.into(),
                    new_state: new_state.into(),
                    timestamp: Stamp::At(timestamp),
                },
            },
            AgentEnvironmentEvent::Job(e) => match e {
                JobEvent::Started { worker_id, job_id, task_type, timestamp } => WebUIEvent::JobStarted {
                    worker_id: id_to_string(worker_id),
                    job_id: id_to_string(job_id),
                    task_type,
                    timestamp: Stamp::At(timestamp),
                },
                JobEvent::Completed { worker_id, job_id, result, timestamp } => WebUIEvent::JobCompleted {
                    worker_id: id_to_string(worker_id),
                    job_id: id_to_string(job_id),
                    result: result.into(),
                    timestamp: Stamp::At(timestamp),
                },
                JobEvent::OutputChunk { worker_id, job_id, chunk, timestamp } => WebUIEvent::OutputChunk {
                    worker_id: id_to_string(worker_id),
                    job_id: id_to_string(job_id),
                    chunk: chunk.into(),
                    timestamp: Stamp::At(timestamp),
                },
            },
            AgentEnvironmentEvent::AgentLoop(e) => match e {
                AgentLoopEvent::ResponseReceived { worker_id, job_id, text, timestamp } => WebUIEvent::ResponseReceived {
                    worker_id: id_to_string(worker_id),
                    job_id: id_to_string(job_id),
                    text,
                    timestamp: Stamp::At(timestamp),
                },
                AgentLoopEvent::ToolUseRequestReceived { worker_id, job_id, tool_name, tool_input, timestamp } =>
                    WebUIEvent::ToolUseRequested {
                    worker_id: id_to_string(worker_id),
                    job_id: id_to_string(job_id),
                    tool_name,
                    tool_input,
                    timestamp: Stamp::At(timestamp),
                },
            },
            AgentEnvironmentEvent::System(SystemEvent::ShutdownInitiated { reason, timestamp }) =>
                WebUIEvent::ShutdownInitiated { reason, timestamp: Stamp::At(timestamp) },
            AgentEnvironmentEvent::WebUI(e) => match e {
                crate::events::WebUIEvent::PromptReceived { worker_id, text, timestamp } => WebUIEvent::PromptReceived {
                    worker_id: id_to_string(worker_id),
                    text,
                    timestamp: Stamp::At(timestamp),
                },
                crate::events::WebUIEvent::ServerStarted { address, timestamp } => WebUIEvent::ServerStarted {
                    address,
                    timestamp: Stamp::At(timestamp),
                },
                crate::events::WebUIEvent::WebSocketConnected { timestamp } => WebUIEvent::WebSocketConnected {
                    timestamp: Stamp::At(timestamp),
                },
            },
        }
    }

    /// The worker the event is about, if any.
    pub fn worker_id(&self) -> (r: Option<&String>)
        ensures
            match (r, web_event_worker(*self)) {
                (Some(a), Some(b)) => *a == b,
                (None, None) => true,
                _ => false,
            },
    {
        match self {
            WebUIEvent::WorkerCreated { worker_id, .. } => Some(worker_id),
            WebUIEvent::WorkerDeleted { worker_id, .. } => Some(worker_id),
            WebUIEvent::WorkerStateChanged { worker_id, .. } => Some(worker_id),
            WebUIEvent::JobStarted { worker_id, .. } => Some(worker_id),
            WebUIEvent::JobCompleted { worker_id, .. } => Some(worker_id),
            WebUIEvent::OutputChunk { worker_id, .. } => Some(worker_id),
            WebUIEvent::ResponseReceived { worker_id, .. } => Some(worker_id),
            WebUIEvent::ToolUseRequested { worker_id, .. } => Some(worker_id),
            WebUIEvent::PromptReceived { worker_id, .. } => Some(worker_id),
            WebUIEvent::ConversationSnapshot { worker_id, .. } => Some(worker_id),
            WebUIEvent::ShutdownInitiated { .. } => None,
            WebUIEvent::ServerStarted { .. } => None,
            WebUIEvent::WebSocketConnected { .. } => None,
            WebUIEvent::WorkersSnapshot { .. } => None,
            WebUIEvent::Error { .. } => None,
        }
    }
}

} // verus!
