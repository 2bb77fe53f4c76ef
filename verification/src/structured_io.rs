//! The structured interface: which JSON line it writes for an event, and how it reads a
//! line of input (a JSON command or plain text).
use vstd::prelude::*;
use std::time::Instant;
use crate::commands::{AgentEnvironmentCommand, PromptResult};
use crate::events::{
    is_json_text, json_text_valid,
    AgentEnvironmentEvent, AgentLoopEvent, JobCompletionResult, JobEvent, ToolInput, WebUIEvent, WorkerEvent,
    WorkerLifecycleState,
};
use crate::ids::{parse_id, parsed_id};
use crate::session::Session;
use crate::text::{owned, str_eq, trim, trimmed};
use crate::worker::Worker;

verus! {

broadcast use vstd::string::group_string_axioms;

/// How a line is colored.
#[derive(Clone, Copy, Debug, PartialEq, Eq, Structural)]
pub enum OutputStyle {
    /// Dimmed white.
    Dimmed,
    /// Red.
    Red,
    /// No color.
    Plain,
    /// Cyan.
    Cyan,
    /// Bright blue.
    BrightBlue,
}

/// A JSON line the structured interface writes, with its fields.
#[derive(Clone, Debug)]
pub enum StructuredLine {
    /// `{"event": "worker_created", "worker_id", "name", "timestamp"}`
    WorkerCreated { worker_id: u128, name: String, timestamp: Instant },
    /// `{"event": "worker_deleted", "worker_id", "timestamp"}`
    WorkerDeleted { worker_id: u128, timestamp: Instant },
    /// `{"worker_id", "lifecycle_state"}`
    LifecycleState { worker_id: u128, lifecycle_state: String },
    /// `{"event": "job_started", "worker_id", "job_id", "task_type", "timestamp"}`
    JobStarted { worker_id: u128, job_id: u128, task_type: String, timestamp: Instant },
    /// `{"event": "job_completed", "worker_id", "job_id", "result", "timestamp"}`
    JobCompleted { worker_id: u128, job_id: u128, result: String, timestamp: Instant },
    /// `{"worker_id", "assistant_response"}`
    AssistantResponse { worker_id: u128, text: String },
    /// `{"worker_id", "tool_use_request": {"tool_name", "tool_input"}}`
    ToolUseRequest { worker_id: u128, tool_name: String, tool_input: ToolInput },
    /// `{"event": "webui_prompt", "worker_id", "text"}`
    WebUiPrompt { worker_id: u128, text: String },
    /// `{"event": "webui_server_started", "address"}`
    WebUiServerStarted { address: String },
    /// `{"event": "webui_websocket_connected"}`
    WebUiWebSocketConnected,
}

/// The `lifecycle_state` field for a state.
pub open spec fn state_field(s: WorkerLifecycleState) -> Seq<char> {
    match s {
        WorkerLifecycleState::Idle => "idle"@,
        WorkerLifecycleState::Busy => "busy"@,
        WorkerLifecycleState::IdleFailed => "idle_failed"@,
    }
}

/// The `result` field for a job result.
pub open spec fn result_field(r: JobCompletionResult) -> Seq<char> {
    match r {
        JobCompletionResult::Success { .. } => "success"@,
        JobCompletionResult::Cancelled => "cancelled"@,
        JobCompletionResult::Failed { .. } => "failed"@,
    }
}

/// The line written for an event: worker, job, response, tool use and web UI events each
/// give one; output chunks, system events and the rest give none.
pub open spec fn line_for(e: AgentEnvironmentEvent, l: Option<StructuredLine>) -> bool {
    match e {
        AgentEnvironmentEvent::Worker(WorkerEvent::Created { worker_id, name, timestamp }) => l matches Some(
            StructuredLine::WorkerCreated { worker_id: w, name: n, timestamp: t },
        ) && w == worker_id && n == name && t == timestamp,
        AgentEnvironmentEvent::Worker(WorkerEvent::Deleted { worker_id, timestamp }) => l matches Some(
            StructuredLine::WorkerDeleted { worker_id: w, timestamp: t },
        ) && w == worker_id && t == timestamp,
        AgentEnvironmentEvent::Worker(WorkerEvent::LifecycleStateChanged { worker_id, new_state, .. }) => l matches Some(
            StructuredLine::LifecycleState { worker_id: w, lifecycle_state },
        ) && w == worker_id && lifecycle_state@ == state_field(new_state),
        AgentEnvironmentEvent::Job(JobEvent::Started { worker_id, job_id, task_type, timestamp }) => l matches Some(
            StructuredLine::JobStarted { worker_id: w, job_id: j, task_type: k, timestamp: t },
        ) && w == worker_id && j == job_id && k == task_type && t == timestamp,
        AgentEnvironmentEvent::Job(JobEvent::Completed { worker_id, job_id, result, timestamp }) => l matches Some(
            StructuredLine::JobCompleted { worker_id: w, job_id: j, result: r, timestamp: t },
        ) && w == worker_id && j == job_id && r@ == result_field(result) && t == timestamp,
        AgentEnvironmentEvent::AgentLoop(AgentLoopEvent::ResponseReceived { worker_id, text, .. }) => l matches Some(
            StructuredLine::AssistantResponse { worker_id: w, text: x },
        ) && w == worker_id && x == text,
        AgentEnvironmentEvent::AgentLoop(AgentLoopEvent::ToolUseRequestReceived { worker_id, tool_name, tool_input, .. }) =>
            l matches Some(StructuredLine::ToolUseRequest { worker_id: w, tool_name: n, tool_input: i }) && w
            == worker_id && n == tool_name && i == tool_input,
        AgentEnvironmentEvent::WebUI(WebUIEvent::PromptReceived { worker_id, text, .. }) => l matches Some(
            StructuredLine::WebUiPrompt { worker_id: w, text: x },
        ) && w == worker_id && x == text,
        AgentEnvironmentEvent::WebUI(WebUIEvent::ServerStarted { address, .. }) => l matches Some(
            StructuredLine::WebUiServerStarted { address: a },
        ) && a == address,
        AgentEnvironmentEvent::WebUI(WebUIEvent::WebSocketConnected { .. }) => l matches Some(
            StructuredLine::WebUiWebSocketConnected,
        ),
        _ => l is None,
    }
}

/// The color of a line: events of the bookkeeping are dimmed (a failed job red), the
/// assistant's output is plain, web UI prompts cyan, and server notices bright blue.
pub open spec fn style_of(l: StructuredLine) -> OutputStyle {
    match l {
        StructuredLine::JobCompleted { result, .. } => if result@ == "failed"@ {
            OutputStyle::Red
        } else {
            OutputStyle::Dimmed
        },
        StructuredLine::WorkerCreated { .. } => OutputStyle::Dimmed,
        StructuredLine::WorkerDeleted { .. } => OutputStyle::Dimmed,
        StructuredLine::LifecycleState { .. } => OutputStyle::Dimmed,
        StructuredLine::JobStarted { .. } => OutputStyle::Dimmed,
        StructuredLine::AssistantResponse { .. } => OutputStyle::Plain,
        StructuredLine::ToolUseRequest { .. } => OutputStyle::Plain,
        StructuredLine::WebUiPrompt { .. } => OutputStyle::Cyan,
        StructuredLine::WebUiServerStarted { .. } => OutputStyle::BrightBlue,
        StructuredLine::WebUiWebSocketConnected => OutputStyle::BrightBlue,
    }
}

impl StructuredLine {
    /// The color of the line.
    pub fn style(&self) -> (s: OutputStyle)
        ensures
            s == style_of(*self),
    {
        proof {
            reveal_strlit("failed");
        }
        match self {
            StructuredLine::JobCompleted { result, .. } => if str_eq(result.as_str(), "failed") {
                OutputStyle::Red
            } else {
                OutputStyle::Dimmed
            },
            StructuredLine::WorkerCreated { .. } => OutputStyle::Dimmed,
            StructuredLine::WorkerDeleted { .. } => OutputStyle::Dimmed,
            StructuredLine::LifecycleState { .. } => OutputStyle::Dimmed,
            StructuredLine::JobStarted { .. } => OutputStyle::Dimmed,
            StructuredLine::AssistantResponse { .. } => OutputStyle::Plain,
            StructuredLine::ToolUseRequest { .. } => OutputStyle::Plain,
            StructuredLine::WebUiPrompt { .. } => OutputStyle::Cyan,
            StructuredLine::WebUiServerStarted { .. } => OutputStyle::BrightBlue,
            StructuredLine::WebUiWebSocketConnected => OutputStyle::BrightBlue,
        }
    }
}

/// The line the structured interface writes for an event, if any.
pub fn structured_output(event: &AgentEnvironmentEvent) -> (l: Option<StructuredLine>)
    ensures
        line_for(*event, l),
{
    proof {
        reveal_strlit("idle");
        reveal_strlit("busy");
        reveal_strlit("idle_failed");
        reveal_strlit("success");
        reveal_strlit("cancelled");
        reveal_strlit("failed");
    }
    match event {
        AgentEnvironmentEvent::Worker(WorkerEvent::Created { worker_id, name, timestamp }) => Some(
            StructuredLine::WorkerCreated { worker_id: *worker_id, name: name.clone(), timestamp: *timestamp },
        ),
        AgentEnvironmentEvent::Worker(WorkerEvent::Deleted { worker_id, timestamp }) => Some(
            StructuredLine::WorkerDeleted { worker_id: *worker_id, timestamp: *timestamp },
        ),
        AgentEnvironmentEvent::Worker(WorkerEvent::LifecycleStateChanged { worker_id, new_state, .. }) => {
            let lifecycle_state = match new_state {
                WorkerLifecycleState::Idle => owned("idle"),
                WorkerLifecycleState::Busy => owned("busy"),
                WorkerLifecycleState::IdleFailed => owned("idle_failed"),
            };
            Some(StructuredLine::LifecycleState { worker_id: *worker_id, lifecycle_state })
        },
        AgentEnvironmentEvent::Job(JobEvent::Started { worker_id, job_id, task_type, timestamp }) => Some(
            StructuredLine::JobStarted {
                worker_id: *worker_id,
                job_id: *job_id,
                task_type: task_type.clone(),
                timestamp: *timestamp,
            },
        ),
        AgentEnvironmentEvent::Job(JobEvent::Completed { worker_id, job_id, result, timestamp }) => {
            let r = match result {
                JobCompletionResult::Success { .. } => owned("success"),
                JobCompletionResult::Cancelled => owned("cancelled"),
                JobCompletionResult::Failed { .. } => owned("failed"),
            };
            Some(StructuredLine::JobCompleted { worker_id: *worker_id, job_id: *job_id, result: r, timestamp: *timestamp })
        },
        AgentEnvironmentEvent::AgentLoop(AgentLoopEvent::ResponseReceived { worker_id, text, .. }) => Some(
            StructuredLine::AssistantResponse { worker_id: *worker_id, text: text.clone() },
        ),
        AgentEnvironmentEvent::AgentLoop(AgentLoopEvent::ToolUseRequestReceived { worker_id, tool_name, tool_input, .. }) =>
            Some(
            StructuredLine::ToolUseRequest {
                worker_id: *worker_id,
                tool_name: tool_name.clone(),
                tool_input: tool_input.duplicate(),
            },
        ),
        AgentEnvironmentEvent::WebUI(WebUIEvent::PromptReceived { worker_id, text, .. }) => Some(
            StructuredLine::WebUiPrompt { worker_id: *worker_id, text: text.clone() },
        ),
        AgentEnvironmentEvent::WebUI(WebUIEvent::ServerStarted { address, .. }) => Some(
            StructuredLine::WebUiServerStarted { address: address.clone() },
        ),
        AgentEnvironmentEvent::WebUI(WebUIEvent::WebSocketConnected { .. }) => Some(
            StructuredLine::WebUiWebSocketConnected,
        ),
        _ => None,
    }
}

/// A field of a JSON input line: absent, present but not a string, or a string.
#[derive(Clone, Debug)]
pub enum InputField {
    Missing,
    NotText,
    Text(String),
}

/// The fields of a JSON input line that the interface reads.
#[derive(Clone, Debug)]
pub struct InputJson {
    pub command: InputField,
    pub worker_id: InputField,
    pub text: InputField,
    pub prompt: InputField,
}

/// What the structured interface does with a line of input.
pub enum InputAction {
    /// Nothing to send.
    Skip,
    /// Shut down.
    Quit,
    /// Send this to the agent environment.
    Send(PromptResult),
}

/// The identifier of the first worker, if there is one.
pub open spec fn first_worker_id(ws: Seq<Worker>) -> Option<u128> {
    if ws.len() > 0 {
        Some(ws[0].id)
    } else {
        None
    }
}

/// The worker a JSON line addresses: the one its `worker_id` names when that is a UUID,
/// else the first worker.
pub open spec fn addressed_worker(ws: Seq<Worker>, field: InputField) -> Option<u128> {
    match field {
        InputField::Text(s) => match parsed_id(s@) {
            Some(id) => Some(id),
            None => first_worker_id(ws),
        },
        _ => first_worker_id(ws),
    }
}

/// The text of a field when it is a string, else `default`.
pub open spec fn text_or(field: InputField, default: Seq<char>) -> Seq<char> {
    match field {
        InputField::Text(s) => s@,
        _ => default,
    }
}

/// How a line of input is read. Blank lines are skipped. A JSON line with `"command":
/// "quit"` quits; with `"command": "prompt"` it prompts the addressed worker with its
/// `text` (or nothing); with another command the whole line is a prompt for the first
/// worker. A JSON line without a command prompts the addressed worker with its `text`,
/// else its `prompt`, else the whole line. Any other line is a prompt for the first
/// worker. Without a worker to address, nothing is sent.
pub open spec fn input_spec(ws: Seq<Worker>, line: Seq<char>, json: Option<InputJson>) -> Option<
    Option<(u128, Seq<char>)>,
> {
    let t = trimmed(line);
    if t.len() == 0 {
        Some(None)
    } else {
        match json {
            Some(j) => match j.command {
                InputField::Text(c) => if c@ == "quit"@ {
                    None
                } else if c@ == "prompt"@ {
                    match addressed_worker(ws, j.worker_id) {
                        Some(w) => Some(Some((w, text_or(j.text, Seq::empty())))),
                        None => Some(None),
                    }
                } else {
                    match first_worker_id(ws) {
                        Some(w) => Some(Some((w, t))),
                        None => Some(None),
                    }
                },
                _ => match addressed_worker(ws, j.worker_id) {
                    Some(w) => Some(
                        Some(
                            (
                                w,
                                match j.text {
                                    InputField::Missing => text_or(j.prompt, t),
                                    _ => text_or(j.text, t),
                                },
                            ),
                        ),
                    ),
                    None => Some(None),
                },
            },
            None => match first_worker_id(ws) {
                Some(w) => Some(Some((w, t))),
                None => Some(None),
            },
        }
    }
}

fn first_id(session: &Session) -> (r: Option<u128>)
    ensures
        r == first_worker_id(session.workers_view()),
{
    let ws = session.get_workers();
    if ws.len() > 0 {
        Some(ws[0].id)
    } else {
        None
    }
}

fn addressed(session: &Session, field: &InputField) -> (r: Option<u128>)
    ensures
        r == addressed_worker(session.workers_view(), *field),
{
    match field {
        InputField::Text(s) => match parse_id(s.as_str()) {
            Some(id) => Some(id),
            None => first_id(session),
        },
        _ => first_id(session),
    }
}

fn field_text(field: &InputField, default: &str) -> (r: String)
    ensures
        r@ == text_or(*field, default@),
{
    match field {
        InputField::Text(s) => s.clone(),
        _ => owned(default),
    }
}

fn prompt_for(worker: Option<u128>, text: String) -> (a: InputAction)
    ensures
        match worker {
            Some(w) => a matches InputAction::Send(PromptResult::Command(AgentEnvironmentCommand::Prompt { worker_id, text: x }))
                && worker_id == w && x == text,
            None => a is Skip,
        },
{
    match worker {
        Some(w) => InputAction::Send(PromptResult::Command(AgentEnvironmentCommand::Prompt { worker_id: w, text })),
        None => InputAction::Skip,
    }
}

/// `a` carries out the reading `r` of a line: quit, skip, or a prompt for a worker.
pub open spec fn acts_on(r: Option<Option<(u128, Seq<char>)>>, a: InputAction) -> bool {
    match r {
        None => a is Quit,
        Some(None) => a is Skip,
        Some(Some((w, text))) => a matches InputAction::Send(
            PromptResult::Command(AgentEnvironmentCommand::Prompt { worker_id, text: x }),
        ) && worker_id == w && x@ == text,
    }
}

/// What `serde_json` finds under field `name` of a text: nothing when the text is not a
/// JSON object with that field, else `Some(Some(s))` for a string `s` and `Some(None)` for
/// any other value.
pub uninterp spec fn json_field_text(text: Seq<char>, name: Seq<char>) -> Option<Option<Seq<char>>>;

/// `f` is field `name` of JSON text `text`.
pub open spec fn field_read(f: InputField, text: Seq<char>, name: Seq<char>) -> bool {
    match json_field_text(text, name) {
        None => f is Missing,
        Some(None) => f is NotText,
        Some(Some(s)) => f matches InputField::Text(t) && t@ == s,
    }
}

/// `j` holds the fields of `text` when it is JSON, and is nothing otherwise.
pub open spec fn json_read(text: Seq<char>, j: Option<InputJson>) -> bool {
    if json_text_valid(text) {
        j matches Some(x) && field_read(x.command, text, "command"@) && field_read(x.worker_id, text, "worker_id"@)
            && field_read(x.text, text, "text"@) && field_read(x.prompt, text, "prompt"@)
    } else {
        j is None
    }
}

/// Field `name` of a JSON text (`serde_json::from_str::<Value>`, then `Value::get`):
/// missing, a string, or another value.
#[verifier::external_body]
fn json_field(text: &str, name: &str) -> (f: InputField)
    ensures
        match json_field_text(text@, name@) {
            None => f is Missing,
            Some(None) => f is NotText,
            Some(Some(s)) => f matches InputField::Text(t) && t@ == s,
        },
{
    match serde_json::from_str::<serde_json::Value>(text).ok().and_then(|v| v.get(name).cloned()) {
        None => InputField::Missing,
        Some(serde_json::Value::String(s)) => InputField::Text(s),
        Some(_) => InputField::NotText,
    }
}

/// The fields of a text the structured interface reads, when the text is JSON.
pub fn read_input_json(text: &str) -> (j: Option<InputJson>)
    ensures
        json_read(text@, j),
{
    proof {
        reveal_strlit("command");
        reveal_strlit("worker_id");
        reveal_strlit("text");
        reveal_strlit("prompt");
    }
    if is_json_text(text) {
        Some(
            InputJson {
                command: json_field(text, "command"),
                worker_id: json_field(text, "worker_id"),
                text: json_field(text, "text"),
                prompt: json_field(text, "prompt"),
            },
        )
    } else {
        None
    }
}

/// Reads a line of input as the structured interface does: the trimmed line is read as
/// JSON when it is JSON, then as `input_spec` says.
pub fn read_structured_input(session: &Session, line: &str) -> (a: InputAction)
    ensures
        exists|j: Option<InputJson>|
            json_read(trimmed(line@), j) && #[trigger] acts_on(input_spec(session.workers_view(), line@, j), a),
{
    let t = trim(line);
    let json = read_input_json(t);
    let a = structured_input(session, line, json);
    assert(acts_on(input_spec(session.workers_view(), line@, json), a));
    a
}

/// Reads a line of input; `json` holds the fields of the trimmed line when it is JSON.
pub fn structured_input(session: &Session, line: &str, json: Option<InputJson>) -> (a: InputAction)
    ensures
        match input_spec(session.workers_view(), line@, json) {
            None => a is Quit,
            Some(None) => a is Skip,
            Some(Some((w, text))) => a matches InputAction::Send(
                PromptResult::Command(AgentEnvironmentCommand::Prompt { worker_id, text: x }),
            ) && worker_id == w && x@ == text,
        },
{
    let t = trim(line);
    if t.unicode_len() == 0 {
        return InputAction::Skip;
    }
    proof {
        reveal_strlit("quit");
        reveal_strlit("prompt");
        reveal_strlit("");
    }
    match json {
        Some(j) => match &j.command {
            InputField::Text(c) => {
                if str_eq(c.as_str(), "quit") {
                    InputAction::Quit
                } else if str_eq(c.as_str(), "prompt") {
                    let w = addressed(session, &j.worker_id);
                    let text = field_text(&j.text, "");
                    prompt_for(w, text)
                } else {
                    prompt_for(first_id(session), owned(t))
                }
            },
            _ => {
                let w = addressed(session, &j.worker_id);
                let text = match &j.text {
                    InputField::Missing => field_text(&j.prompt, t),
                    _ => field_text(&j.text, t),
                };
                prompt_for(w, text)
            },
        },
        None => prompt_for(first_id(session), owned(t)),
    }
}

} // verus!
