//! What the user interfaces show: token usage, context information, and the reactions of
//! the text interface to events and input.
use vstd::prelude::*;
use vstd::utf8::encode_utf8;
use crate::commands::{
    parse_spec, AgentCommandView, AgentEnvironmentCommand, Command, CommandParser, CommandView, PromptResult,
    UiCommand,
};
use crate::conversation::{assistant_content, user_prompt, ConversationEntry};
use crate::events::{event_worker_id, AgentEnvironmentEvent, JobEvent, OutputChunk, WorkerEvent, WorkerLifecycleState};
use crate::ids::{hyphenated, id_to_string};
use crate::session::{first_worker_index, has_worker, Session};
use crate::text::{decimal, owned, push_decimal};
use crate::worker::Worker;

verus! {

broadcast use vstd::string::group_string_axioms;

/// Token usage of a worker.
#[derive(Clone, Copy, Debug)]
pub struct TokenUsage {
    pub input_tokens: usize,
    pub output_tokens: usize,
    pub total_tokens: usize,
}

/// The estimated number of tokens of a text: a quarter of its UTF-8 length.
pub open spec fn tokens_of(text: Seq<char>) -> int {
    (encode_utf8(text).len() as usize / 4) as int
}

/// Estimates the tokens of a text: about four bytes per token.
pub fn estimate_tokens(text: &str) -> (n: usize)
    ensures
        n == tokens_of(text@),
{
    text.len() / 4
}

/// The estimated tokens of the user's prompts in a conversation.
pub open spec fn input_tokens(h: Seq<ConversationEntry>) -> int
    decreases h.len(),
{
    if h.len() == 0 {
        0
    } else {
        input_tokens(h.drop_last()) + match h.last().user {
            Some(m) => match user_prompt(m) {
                Some(p) => tokens_of(p),
                None => 0,
            },
            None => 0,
        }
    }
}

/// The estimated tokens of the assistant's replies in a conversation.
pub open spec fn output_tokens(h: Seq<ConversationEntry>) -> int
    decreases h.len(),
{
    if h.len() == 0 {
        0
    } else {
        output_tokens(h.drop_last()) + match h.last().assistant {
            Some(m) => tokens_of(assistant_content(m)@),
            None => 0,
        }
    }
}

proof fn lemma_tokens_nonneg(h: Seq<ConversationEntry>)
    ensures
        input_tokens(h) >= 0,
        output_tokens(h) >= 0,
    decreases h.len(),
{
    if h.len() > 0 {
        lemma_tokens_nonneg(h.drop_last());
    }
}

proof fn lemma_tokens_prefix(h: Seq<ConversationEntry>, i: int)
    requires
        0 <= i <= h.len(),
    ensures
        input_tokens(h.take(i)) <= input_tokens(h),
        output_tokens(h.take(i)) <= output_tokens(h),
    decreases h.len() - i,
{
    if i < h.len() {
        lemma_tokens_prefix(h, i + 1);
        assert(h.take(i + 1).drop_last() =~= h.take(i));
        lemma_tokens_nonneg(h.take(i));
    } else {
        assert(h.take(i) =~= h);
    }
}

/// Estimates the tokens of a worker's conversation: the user's prompts as input, the
/// assistant's replies as output.
pub fn calculate_token_usage(worker: &Worker) -> (u: TokenUsage)
    requires
        input_tokens(worker.context_container.conversation_history@) + output_tokens(
            worker.context_container.conversation_history@,
        ) <= usize::MAX,
    ensures
        u.input_tokens == input_tokens(worker.context_container.conversation_history@),
        u.output_tokens == output_tokens(worker.context_container.conversation_history@),
        u.total_tokens == u.input_tokens + u.output_tokens,
{
    let entries = worker.context_container.conversation_history.get_entries();
    let ghost h = worker.context_container.conversation_history@;
    let mut input: usize = 0;
    let mut output: usize = 0;
    let mut i: usize = 0;
    proof {
        lemma_tokens_nonneg(h);
    }
    while i < entries.len()
        invariant
            i <= entries@.len(),
            entries@ == h,
            input_tokens(h) + output_tokens(h) <= usize::MAX,
            input == input_tokens(h.take(i as int)),
            output == output_tokens(h.take(i as int)),
        decreases entries.len() - i,
    {
        proof {
            assert(h.take(i + 1).drop_last() =~= h.take(i as int));
            lemma_tokens_prefix(h, i + 1);
            lemma_tokens_nonneg(h.take(i + 1));
            lemma_tokens_nonneg(h);
        }
        let entry = &entries[i];
        match &entry.user {
            Some(user_msg) => match user_msg.prompt() {
                Some(prompt) => {
                    input = input + estimate_tokens(prompt);
                },
                None => {},
            },
            None => {},
        }
        match &entry.assistant {
            Some(asst_msg) => {
                output = output + estimate_tokens(asst_msg.content().as_str());
            },
            None => {},
        }
        i = i + 1;
    }
    assert(h.take(i as int) =~= h);
    TokenUsage { input_tokens: input, output_tokens: output, total_tokens: input + output }
}

/// The name of a lifecycle state, as its `Debug` form writes it.
pub open spec fn state_name(s: WorkerLifecycleState) -> Seq<char> {
    match s {
        WorkerLifecycleState::Idle => "Idle"@,
        WorkerLifecycleState::Busy => "Busy"@,
        WorkerLifecycleState::IdleFailed => "IdleFailed"@,
    }
}

/// The name of a lifecycle state.
pub fn lifecycle_state_name(s: WorkerLifecycleState) -> (r: String)
    ensures
        r@ == state_name(s),
{
    proof {
        reveal_strlit("Idle");
        reveal_strlit("Busy");
        reveal_strlit("IdleFailed");
    }
    match s {
        WorkerLifecycleState::Idle => owned("Idle"),
        WorkerLifecycleState::Busy => owned("Busy"),
        WorkerLifecycleState::IdleFailed => owned("IdleFailed"),
    }
}

/// The context information of a worker: name, number of conversation entries, state.
pub open spec fn context_info(w: Worker) -> Seq<char> {
    "Worker: "@ + w.name@ + "\nMessages: "@ + decimal(w.context_container.conversation_history@.len())
        + "\nState: "@ + state_name(w.lifecycle_state)
}

/// Formats the context information of a worker for display.
pub fn format_context_info(worker: &Worker) -> (s: String)
    ensures
        s@ == context_info(*worker),
{
    let mut s = owned("Worker: ");
    s.append(worker.name.as_str());
    s.append("\nMessages: ");
    push_decimal(&mut s, worker.context_container.conversation_history.len() as u128);
    s.append("\nState: ");
    let name = lifecycle_state_name(worker.lifecycle_state);
    s.append(name.as_str());
    proof {
        reveal_strlit("Worker: ");
        reveal_strlit("\nMessages: ");
        reveal_strlit("\nState: ");
    }
    assert(s@ =~= context_info(*worker));
    s
}

/// How the text interface reacts to an event: what it prints, and whether it asks for
/// the next input.
pub struct TextUiReaction {
    pub output: Option<String>,
    pub prompt_ready: bool,
}

/// What the text interface prints for an event of its worker, and whether it then asks
/// for input: streamed text as it comes, tool uses and results on lines of their own, a
/// line break when the worker is idle again, a failure notice when its job failed.
pub open spec fn text_reaction(main_worker_id: u128, e: AgentEnvironmentEvent) -> (Option<Seq<char>>, bool) {
    if event_worker_id(e) matches Some(w) && w != main_worker_id {
        (None, false)
    } else {
        match e {
            AgentEnvironmentEvent::Job(JobEvent::OutputChunk { chunk, .. }) => match chunk {
                OutputChunk::AssistantResponse(text) => (Some(text@), false),
                OutputChunk::ToolUse { tool_name, .. } => (Some("\n[Using tool: "@ + tool_name@ + "]\n"@), false),
                OutputChunk::ToolResult { tool_name, .. } => (Some("[Tool "@ + tool_name@ + " completed]\n"@), false),
            },
            AgentEnvironmentEvent::Worker(WorkerEvent::LifecycleStateChanged { new_state, .. }) => match new_state {
                WorkerLifecycleState::Busy => (None, false),
                WorkerLifecycleState::Idle => (Some("\n"@), true),
                WorkerLifecycleState::IdleFailed => (Some("\n[Task failed]\n"@), true),
            },
            _ => (None, false),
        }
    }
}

/// The text interface's reaction to an event; events of other workers are ignored.
pub fn text_ui_reaction(main_worker_id: u128, event: &AgentEnvironmentEvent) -> (r: TextUiReaction)
    ensures
        r.prompt_ready == text_reaction(main_worker_id, *event).1,
        match (r.output, text_reaction(main_worker_id, *event).0) {
            (Some(a), Some(b)) => a@ == b,
            (None, None) => true,
            _ => false,
        },
{
    proof {
        reveal_strlit("\n[Using tool: ");
        reveal_strlit("]\n");
        reveal_strlit("[Tool ");
        reveal_strlit(" completed]\n");
        reveal_strlit("\n");
        reveal_strlit("\n[Task failed]\n");
    }
    match event.worker_id() {
        Some(w) => {
            if w != main_worker_id {
                return TextUiReaction { output: None, prompt_ready: false };
            }
        },
        None => {},
    }
    match event {
        AgentEnvironmentEvent::Job(JobEvent::OutputChunk { chunk, .. }) => match chunk {
            OutputChunk::AssistantResponse(text) => TextUiReaction { output: Some(text.clone()), prompt_ready: false },
            OutputChunk::ToolUse { tool_name, .. } => {
                let mut s = owned("\n[Using tool: ");
                s.append(tool_name.as_str());
                s.append("]\n");
                assert(s@ =~= "\n[Using tool: "@ + tool_name@ + "]\n"@);
                TextUiReaction { output: Some(s), prompt_ready: false }
            },
            OutputChunk::ToolResult { tool_name, .. } => {
                let mut s = owned("[Tool ");
                s.append(tool_name.as_str());
                s.append(" completed]\n");
                assert(s@ =~= "[Tool "@ + tool_name@ + " completed]\n"@);
                TextUiReaction { output: Some(s), prompt_ready: false }
            },
        },
        AgentEnvironmentEvent::Worker(WorkerEvent::LifecycleStateChanged { new_state, .. }) => match new_state {
            WorkerLifecycleState::Busy => TextUiReaction { output: None, prompt_ready: false },
            WorkerLifecycleState::Idle => TextUiReaction { output: Some(owned("\n")), prompt_ready: true },
            WorkerLifecycleState::IdleFailed => TextUiReaction {
                output: Some(owned("\n[Task failed]\n")),
                prompt_ready: true,
            },
        },
        _ => TextUiReaction { output: None, prompt_ready: false },
    }
}

/// When the text interface starts: whether it asks for input at once (its worker is
/// idle), or an error when its worker does not exist.
pub fn text_ui_start(session: &Session, main_worker_id: u128) -> (r: Result<bool, String>)
    ensures
        has_worker(session.workers_view(), main_worker_id) ==> r == Ok::<bool, String>(
            session.workers_view()[first_worker_index(session.workers_view(), main_worker_id)].lifecycle_state
                == WorkerLifecycleState::Idle,
        ),
        !has_worker(session.workers_view(), main_worker_id) ==> (r matches Err(e) && e@ == "Worker not found"@),
{
    proof {
        reveal_strlit("Worker not found");
    }
    match session.get_worker(main_worker_id) {
        Some(w) => Ok(w.lifecycle_state == WorkerLifecycleState::Idle),
        None => Err(owned("Worker not found")),
    }
}

/// What the prompt loop of the text interface does with a line of input.
pub enum PromptStep {
    /// Print this text and ask for the next input.
    Show { output: String },
    /// Hand this to the agent environment.
    Send(PromptResult),
    /// Report this error and ask for the next input.
    Rejected { message: String },
}

/// The usage report of the text interface.
pub open spec fn usage_text(w: Worker) -> Seq<char> {
    let h = w.context_container.conversation_history@;
    "Token usage:\n  Input:  "@ + decimal(input_tokens(h) as nat) + "\n  Output: "@ + decimal(output_tokens(h) as nat)
        + "\n  Total:  "@ + decimal((input_tokens(h) + output_tokens(h)) as nat) + "\n"@
}

/// What the text interface prints for a display command about its worker.
pub open spec fn ui_output(session: Session, main_worker_id: u128, u: UiCommand) -> Seq<char> {
    let ws = session.workers_view();
    let found = has_worker(ws, main_worker_id);
    let w = ws[first_worker_index(ws, main_worker_id)];
    match u {
        UiCommand::Usage => if found { usage_text(w) } else { Seq::empty() },
        UiCommand::Context => if found { context_info(w) + "\n"@ } else { Seq::empty() },
        UiCommand::Status => if found { "Worker status: "@ + state_name(w.lifecycle_state) + "\n"@ } else { Seq::empty() },
        UiCommand::Workers => "Workers:\n  Main worker: "@ + hyphenated(main_worker_id) + "\n"@,
    }
}

/// A task command directed at the interface's worker.
pub open spec fn directed(c: AgentCommandView, main_worker_id: u128) -> AgentCommandView {
    match c {
        AgentCommandView::Prompt { text, .. } => AgentCommandView::Prompt { worker_id: main_worker_id, text },
        AgentCommandView::Compact { instruction, .. } => AgentCommandView::Compact {
            worker_id: main_worker_id,
            instruction,
        },
        AgentCommandView::Quit => AgentCommandView::Quit,
    }
}

/// The token estimates of the interface's worker fit in `usize`.
pub open spec fn usage_fits(session: Session, main_worker_id: u128) -> bool {
    let ws = session.workers_view();
    has_worker(ws, main_worker_id) ==> {
        let h = ws[first_worker_index(ws, main_worker_id)].context_container.conversation_history@;
        input_tokens(h) + output_tokens(h) <= usize::MAX
    }
}

/// Handles a line typed in the text interface: display commands print about its worker,
/// task commands are directed at its worker and handed on, and unknown commands are
/// reported.
pub fn text_ui_input(session: &Session, main_worker_id: u128, input: &str) -> (step: PromptStep)
    requires
        usage_fits(*session, main_worker_id),
    ensures
        match parse_spec(input@) {
            Err(word) => step matches PromptStep::Rejected { message } && message@ == "Error parsing command: Unknown command: "@
                + word,
            Ok(CommandView::Ui(u)) => step matches PromptStep::Show { output } && output@ == ui_output(
                *session,
                main_worker_id,
                u,
            ),
            Ok(CommandView::Agent(c)) => step matches PromptStep::Send(PromptResult::Command(cmd)) && cmd@ == directed(
                c,
                main_worker_id,
            ),
        },
{
    proof {
        reveal_strlit("Error parsing command: ");
        reveal_strlit("Error parsing command: Unknown command: ");
        reveal_strlit("Unknown command: ");
        reveal_strlit("Token usage:\n  Input:  ");
        reveal_strlit("\n  Output: ");
        reveal_strlit("\n  Total:  ");
        reveal_strlit("\n");
        reveal_strlit("Worker status: ");
        reveal_strlit("Workers:\n  Main worker: ");
    }
    match CommandParser::parse(input) {
        Err(e) => {
            let mut message = owned("Error parsing command: ");
            let m = e.to_string();
            message.append(m.as_str());
            assert(message@ =~= "Error parsing command: Unknown command: "@ + e@);
            PromptStep::Rejected { message }
        },
        Ok(Command::Ui(u)) => {
            let worker = session.get_worker(main_worker_id);
            let output = match u {
                UiCommand::Usage => match worker {
                    Some(w) => {
                        let usage = calculate_token_usage(w);
                        let mut s = owned("Token usage:\n  Input:  ");
                        push_decimal(&mut s, usage.input_tokens as u128);
                        s.append("\n  Output: ");
                        push_decimal(&mut s, usage.output_tokens as u128);
                        s.append("\n  Total:  ");
                        push_decimal(&mut s, usage.total_tokens as u128);
                        s.append("\n");
                        assert(s@ =~= usage_text(*w));
                        s
                    },
                    None => String::new(),
                },
                UiCommand::Context => match worker {
                    Some(w) => {
                        let mut s = format_context_info(w);
                        s.append("\n");
                        s
                    },
                    None => String::new(),
                },
                UiCommand::Status => match worker {
                    Some(w) => {
                        let mut s = owned("Worker status: ");
                        let name = lifecycle_state_name(w.lifecycle_state);
                        s.append(name.as_str());
                        s.append("\n");
                        s
                    },
                    None => String::new(),
                },
                UiCommand::Workers => {
                    let mut s = owned("Workers:\n  Main worker: ");
                    let t = id_to_string(main_worker_id);
                    s.append(t.as_str());
                    s.append("\n");
                    s
                },
            };
            assert(output@ =~= ui_output(*session, main_worker_id, u));
            PromptStep::Show { output }
        },
        Ok(Command::Agent(cmd)) => {
            let directed_cmd = match cmd {
                AgentEnvironmentCommand::Prompt { text, .. } => AgentEnvironmentCommand::Prompt {
                    worker_id: main_worker_id,
                    text,
                },
                AgentEnvironmentCommand::Compact { instruction, .. } => AgentEnvironmentCommand::Compact {
                    worker_id: main_worker_id,
                    instruction,
                },
                AgentEnvironmentCommand::Quit => AgentEnvironmentCommand::Quit,
            };
            PromptStep::Send(PromptResult::Command(directed_cmd))
        },
    }
}

} // verus!
