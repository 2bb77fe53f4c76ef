//! Commands that browsers send over the WebSocket, and what the session does with them.
use vstd::prelude::*;
use crate::agent_loop::AgentLoopInput;
use crate::conversation::ConversationEntry;
use crate::events::{now, AgentEnvironmentEvent, WorkerEvent, WorkerLifecycleState};
use crate::ids::{hyphenated, id_to_string, parse_id, parsed_id};
use crate::metadata::MetadataValue;
use crate::session::{
    first_worker_index, jobs_cancelled, has_worker, job_added, launch_published_at, lemma_prompt_then_busy,
    one_more, prompt_started, JobTicket, Session,
};
use crate::text::{decimal, has_prefix, is_blank, owned, push_char, push_decimal, starts_with, str_eq, trimmed};
use crate::web::events::{Stamp, WebUIEvent};
use crate::web::serialization::{
    agent_of, convert_conversation_entry, convert_worker_metadata, shows_entry, ConversationEntryJson,
    WorkerMetadataJson,
};
use crate::worker::{Worker, WorkerStates};

verus! {

broadcast use vstd::string::group_string_axioms;

/// A command from a browser.
#[derive(Clone, Debug)]
pub enum WebSocketCommand {
    /// Send a prompt to the main worker.
    Prompt { text: String },
    /// Cancel the jobs of the main worker.
    Cancel,
    /// Create a new worker.
    CreateWorker { name: Option<String>, agent: String, working_directory: Option<String> },
    /// Ask for all workers.
    GetWorkers,
    /// Ask for the conversation of a worker.
    GetConversationHistory { worker_id: String },
    /// Keep the connection alive.
    Ping,
}

/// `s` is empty once surrounding whitespace is dropped.
pub open spec fn blank(s: Seq<char>) -> bool {
    trimmed(s).len() == 0
}

/// Why a command is refused, if it is.
pub open spec fn validation(c: WebSocketCommand) -> Option<Seq<char>> {
    match c {
        WebSocketCommand::Prompt { text } => if blank(text@) {
            Some("Prompt text cannot be empty"@)
        } else {
            None
        },
        WebSocketCommand::CreateWorker { agent, .. } => if blank(agent@) {
            Some("Agent name cannot be empty"@)
        } else {
            None
        },
        WebSocketCommand::GetConversationHistory { worker_id } => if blank(worker_id@) {
            Some("Worker ID cannot be empty"@)
        } else {
            None
        },
        WebSocketCommand::Cancel => None,
        WebSocketCommand::GetWorkers => None,
        WebSocketCommand::Ping => None,
    }
}

impl WebSocketCommand {
    /// Checks the command: a prompt needs text, a new worker an agent, a history request a
    /// worker identifier (whitespace alone does not count).
    pub fn validate(&self) -> (r: Result<(), String>)
        ensures
            match validation(*self) {
                None => r is Ok,
                Some(m) => r matches Err(e) && e@ == m,
            },
    {
        proof {
            reveal_strlit("Prompt text cannot be empty");
            reveal_strlit("Agent name cannot be empty");
            reveal_strlit("Worker ID cannot be empty");
        }
        match self {
            WebSocketCommand::Prompt { text } => {
                if is_blank(text.as_str()) {
                    return Err(owned("Prompt text cannot be empty"));
                }
                Ok(())
            },
            WebSocketCommand::Cancel => Ok(()),
            WebSocketCommand::CreateWorker { agent, .. } => {
                if is_blank(agent.as_str()) {
                    return Err(owned("Agent name cannot be empty"));
                }
                Ok(())
            },
            WebSocketCommand::GetWorkers => Ok(()),
            WebSocketCommand::GetConversationHistory { worker_id } => {
                if is_blank(worker_id.as_str()) {
                    return Err(owned("Worker ID cannot be empty"));
                }
                Ok(())
            },
            WebSocketCommand::Ping => Ok(()),
        }
    }
}

/// What the connection does after a command.
pub enum CommandReply {
    /// Nothing to send back.
    Nothing,
    /// Send this event back to the browser.
    Send(WebUIEvent),
    /// An agent loop was launched; it is to be run.
    Launched(JobTicket),
}

/// `i` is the position of the first worker named `main`.
pub open spec fn main_at(ws: Seq<Worker>, i: int) -> bool {
    &&& 0 <= i < ws.len()
    &&& ws[i].name@ == "main"@
    &&& forall|j: int| 0 <= j < i ==> ws[j].name@ != "main"@
}

/// Some worker is named `main`.
pub open spec fn has_main(ws: Seq<Worker>) -> bool {
    exists|i: int| 0 <= i < ws.len() && ws[i].name@ == "main"@
}

/// The position of the first worker named `main`.
pub open spec fn main_index(ws: Seq<Worker>) -> int {
    choose|i: int| main_at(ws, i)
}

proof fn lemma_main_unique(ws: Seq<Worker>, i: int)
    requires
        main_at(ws, i),
    ensures
        has_main(ws),
        main_index(ws) == i,
{
    let k = main_index(ws);
    assert(main_at(ws, k));
    if k < i {
        assert(ws[k].name@ != "main"@);
    } else if i < k {
        assert(ws[i].name@ != "main"@);
    }
}

/// The position of the first worker named `main`.
fn find_main(ws: &Vec<Worker>) -> (r: Option<usize>)
    ensures
        match r {
            Some(i) => main_at(ws@, i as int),
            None => !has_main(ws@),
        },
{
    let mut i: usize = 0;
    while i < ws.len()
        invariant
            i <= ws@.len(),
            forall|j: int| 0 <= j < i ==> ws@[j].name@ != "main"@,
        decreases ws.len() - i,
    {
        if str_eq(ws[i].name.as_str(), "main") {
            proof {
                reveal_strlit("main");
            }
            return Some(i);
        }
        proof {
            reveal_strlit("main");
        }
        i = i + 1;
    }
    None
}

/// The number of workers whose name starts with `p`.
pub open spec fn named_with_prefix(ws: Seq<Worker>, p: Seq<char>) -> nat
    decreases ws.len(),
{
    if ws.len() == 0 {
        0
    } else {
        named_with_prefix(ws.drop_last(), p) + if has_prefix(ws.last().name@, p) {
            1nat
        } else {
            0nat
        }
    }
}

proof fn lemma_named_with_prefix_bound(ws: Seq<Worker>, p: Seq<char>)
    ensures
        named_with_prefix(ws, p) <= ws.len(),
    decreases ws.len(),
{
    if ws.len() > 0 {
        lemma_named_with_prefix_bound(ws.drop_last(), p);
    }
}

/// The name a new worker of agent `agent` gets: the agent, a hyphen, and one more than the
/// number of workers whose name starts with the agent.
pub open spec fn generated_name(ws: Seq<Worker>, agent: Seq<char>) -> Seq<char> {
    agent + "-"@ + decimal(named_with_prefix(ws, agent) + 1)
}

/// A name for a new worker of agent `agent`, such as `coder-3`.
pub fn generate_worker_name(agent: &str, session: &Session) -> (s: String)
    ensures
        s@ == generated_name(session.workers_view(), agent@),
{
    let ws = session.get_workers();
    let mut count: u128 = 0;
    let mut i: usize = 0;
    while i < ws.len()
        invariant
            i <= ws@.len(),
            count == named_with_prefix(ws@.take(i as int), agent@),
        decreases ws.len() - i,
    {
        proof {
            assert(ws@.take(i as int + 1).drop_last() =~= ws@.take(i as int));
            lemma_named_with_prefix_bound(ws@.take(i as int), agent@);
        }
        if starts_with(ws[i].name.as_str(), agent) {
            count = count + 1;
        }
        i = i + 1;
    }
    proof {
        assert(ws@.take(i as int) =~= ws@);
        lemma_named_with_prefix_bound(ws@, agent@);
    }
    let mut s = owned(agent);
    push_char(&mut s, '-');
    push_decimal(&mut s, count + 1);
    proof {
        reveal_strlit("-");
        assert(s@ =~= generated_name(ws@, agent@));
    }
    s
}

/// `m` lists worker `w`.
pub open spec fn lists(m: WorkerMetadataJson, w: Worker) -> bool {
    &&& m.id@ == hyphenated(w.id)
    &&& m.name == w.name
    &&& m.agent@ == agent_of(w)
    &&& m.state == w.lifecycle_state
}

/// `r` is the workers snapshot of `ws`, sent at the present.
pub open spec fn workers_snapshot(ws: Seq<Worker>, r: WebUIEvent) -> bool {
    r matches WebUIEvent::WorkersSnapshot { workers, timestamp: Stamp::Now } && workers@.len() == ws.len()
        && forall|k: int| 0 <= k < ws.len() ==> lists(#[trigger] workers@[k], ws[k])
}

/// `es` shows the entries `h`, in order.
pub open spec fn shows_history(h: Seq<ConversationEntry>, es: Seq<ConversationEntryJson>) -> bool {
    es.len() == h.len() && forall|k: int| 0 <= k < h.len() ==> shows_entry(h[k], #[trigger] es[k])
}

fn list_workers(ws: &Vec<Worker>) -> (r: Vec<WorkerMetadataJson>)
    ensures
        r@.len() == ws@.len(),
        forall|k: int| 0 <= k < ws@.len() ==> lists(#[trigger] r@[k], ws@[k]),
{
    let mut r: Vec<WorkerMetadataJson> = Vec::new();
    let mut i: usize = 0;
    while i < ws.len()
        invariant
            i <= ws@.len(),
            r@.len() == i,
            forall|k: int| 0 <= k < i ==> lists(#[trigger] r@[k], ws@[k]),
        decreases ws.len() - i,
    {
        r.push(convert_worker_metadata(&ws[i]));
        i = i + 1;
    }
    r
}

fn history_entries(h: &Vec<ConversationEntry>) -> (r: Vec<ConversationEntryJson>)
    ensures
        shows_history(h@, r@),
{
    let mut r: Vec<ConversationEntryJson> = Vec::new();
    let mut i: usize = 0;
    while i < h.len()
        invariant
            i <= h@.len(),
            r@.len() == i,
            forall|k: int| 0 <= k < i ==> shows_entry(h@[k], #[trigger] r@[k]),
        decreases h.len() - i,
    {
        r.push(convert_conversation_entry(&h[i]));
        i = i + 1;
    }
    r
}

/// `r` is an error answer to command `command` with message `message`, sent at the present.
pub open spec fn error_answer(r: WebUIEvent, command: Seq<char>, message: Seq<char>) -> bool {
    r matches WebUIEvent::Error { command: c, message: m, timestamp: Stamp::Now } && c@ == command && m@
        == message
}

fn error_event(command: &str, message: String) -> (r: WebUIEvent)
    ensures
        error_answer(r, command@, message@),
{
    WebUIEvent::Error { command: owned(command), message, timestamp: Stamp::Now }
}

/// What a prompt does: nothing for blank text; an error answer when no worker is named
/// `main`; else the prompt goes to the conversation of the main worker's identifier, its
/// receipt, the worker's move to busy and the start of an agent loop are published, and a
/// running job is recorded and handed back.
pub open spec fn prompt_handled(before: Session, after: Session, text: String, r: Result<CommandReply, String>) -> bool {
    let ws = before.workers_view();
    if blank(text@) {
        r matches Err(e) && e@ == "Prompt text cannot be empty"@ && after == before
    } else if !has_main(ws) {
        r matches Ok(CommandReply::Send(ev)) && error_answer(ev, "prompt"@, "Worker not found: main"@) && after
            == before
    } else {
        let id = ws[main_index(ws)].id;
        let n = before.published().len() as int;
        let ev = after.published();
        &&& r matches Ok(CommandReply::Launched(t)) && t.worker_id == id && job_added(
            before.jobs_view(),
            after.jobs_view(),
            id,
            t.job_id,
        )
        &&& prompt_started(ws, after.workers_view(), id, text)
        &&& ev.take(n) == before.published()
        &&& ev[n] matches AgentEnvironmentEvent::WebUI(
            crate::events::WebUIEvent::PromptReceived { worker_id, text: t, .. },
        ) && worker_id == id && t == text
        &&& launch_published_at(ev, n + 1, ws, id)
        &&& after.providers() == before.providers()
    }
}

/// What a cancel does: the jobs of the main worker's identifier are cancelled, if some
/// worker is named `main`.
pub open spec fn cancel_handled(before: Session, after: Session, r: Result<CommandReply, String>) -> bool {
    let ws = before.workers_view();
    &&& r matches Ok(CommandReply::Nothing)
    &&& if has_main(ws) {
        &&& jobs_cancelled(before.jobs_view(), after.jobs_view(), ws[main_index(ws)].id)
        &&& after.workers_view() == ws
        &&& after.published() == before.published()
        &&& after.providers() == before.providers()
    } else {
        after == before
    }
}

/// A worker as the web interface creates it: fresh apart from its metadata, which names
/// its agent and, if one was given, its working directory.
pub open spec fn created_worker(w: Worker, name: Seq<char>, agent: String, working_directory: Option<String>) -> bool {
    let agent_meta = Map::<Seq<char>, MetadataValue>::empty().insert("agent"@, MetadataValue::String(agent));
    &&& w.name@ == name
    &&& w.context_container.conversation_history@ == Seq::<ConversationEntry>::empty()
    &&& w.context_container.agent_prompt is None
    &&& w.context_container.resource_references@ == Seq::<String>::empty()
    &&& w.lifecycle_state == WorkerLifecycleState::Idle
    &&& w.state == WorkerStates::Inactive
    &&& w.last_failure is None
    &&& w.task_metadata@ == match working_directory {
        Some(d) => agent_meta.insert("working_directory"@, MetadataValue::String(d)),
        None => agent_meta,
    }
}

/// What creating a worker does: nothing for a blank agent; else a worker with the given
/// name, or a generated one, is added and its creation published.
pub open spec fn create_handled(
    before: Session,
    after: Session,
    name: Option<String>,
    agent: String,
    working_directory: Option<String>,
    r: Result<CommandReply, String>,
) -> bool {
    let ws = before.workers_view();
    let nws = after.workers_view();
    let n = match name {
        Some(n) => n@,
        None => generated_name(ws, agent@),
    };
    if blank(agent@) {
        r matches Err(e) && e@ == "Agent name cannot be empty"@ && after == before
    } else {
        &&& r matches Ok(CommandReply::Nothing)
        &&& nws.len() == ws.len() + 1
        &&& nws.drop_last() == ws
        &&& created_worker(nws.last(), n, agent, working_directory)
        &&& after.jobs_view() == before.jobs_view()
        &&& after.providers() == before.providers()
        &&& one_more(before.published(), after.published())
        &&& after.published().last() matches AgentEnvironmentEvent::Worker(
            WorkerEvent::Created { worker_id, name: m, .. },
        ) && worker_id == nws.last().id && m@ == n
    }
}

/// What a history request answers: nothing for a blank identifier; an error when it is
/// not a UUID or no worker has it; else the conversation of the first worker with it.
pub open spec fn history_answered(ws: Seq<Worker>, worker_id: String, r: Result<CommandReply, String>) -> bool {
    if blank(worker_id@) {
        r matches Err(e) && e@ == "Worker ID cannot be empty"@
    } else {
        match parsed_id(worker_id@) {
            None => r matches Ok(CommandReply::Send(ev)) && error_answer(
                ev,
                "get_conversation_history"@,
                "Invalid worker ID format"@,
            ),
            Some(id) => if has_worker(ws, id) {
                r matches Ok(CommandReply::Send(WebUIEvent::ConversationSnapshot { worker_id: w, entries, timestamp: Stamp::Now }))
                    && w == worker_id && shows_history(
                    ws[first_worker_index(ws, id)].context_container.conversation_history@,
                    entries@,
                )
            } else {
                r matches Ok(CommandReply::Send(ev)) && error_answer(
                    ev,
                    "get_conversation_history"@,
                    "Worker not found: "@ + worker_id@,
                )
            },
        }
    }
}

/// What a command does to the session and what it answers.
pub open spec fn command_handled(
    before: Session,
    after: Session,
    command: WebSocketCommand,
    r: Result<CommandReply, String>,
) -> bool {
    match command {
        WebSocketCommand::Prompt { text } => prompt_handled(before, after, text, r),
        WebSocketCommand::Cancel => cancel_handled(before, after, r),
        WebSocketCommand::CreateWorker { name, agent, working_directory } => create_handled(
            before,
            after,
            name,
            agent,
            working_directory,
            r,
        ),
        WebSocketCommand::GetWorkers => r matches Ok(CommandReply::Send(ev)) && workers_snapshot(
            before.workers_view(),
            ev,
        ) && after == before,
        WebSocketCommand::GetConversationHistory { worker_id } => history_answered(before.workers_view(), worker_id, r)
            && after == before,
        WebSocketCommand::Ping => r matches Ok(CommandReply::Nothing) && after == before,
    }
}

/// Carries out a browser's command on the session. A refused command changes nothing
/// and gives the reason as `Err`. Creating a worker with a valid agent needs a model
/// provider, as in the session.
pub fn handle_command(session: &mut Session, command: WebSocketCommand) -> (r: Result<CommandReply, String>)
    requires
        command matches WebSocketCommand::CreateWorker { agent, .. } ==> (!blank(agent@) ==> old(session).providers()
            > 0),
    ensures
        command_handled(*old(session), *final(session), command, r),
{
    match command {
        WebSocketCommand::Prompt { text } => prompt(session, text),
        WebSocketCommand::Cancel => {
            match find_main(session.get_workers()) {
                Some(k) => {
                    proof {
                        lemma_main_unique(session.workers_view(), k as int);
                    }
                    let id = session.get_workers()[k].id;
                    session.cancel_worker_jobs(id);
                },
                None => {},
            }
            Ok(CommandReply::Nothing)
        },
        WebSocketCommand::CreateWorker { name, agent, working_directory } => create_worker(
            session,
            name,
            agent,
            working_directory,
        ),
        WebSocketCommand::GetWorkers => {
            let workers = list_workers(session.get_workers());
            Ok(CommandReply::Send(WebUIEvent::WorkersSnapshot { workers, timestamp: Stamp::Now }))
        },
        WebSocketCommand::GetConversationHistory { worker_id } => conversation_history(session, worker_id),
        WebSocketCommand::Ping => Ok(CommandReply::Nothing),
    }
}

fn prompt(session: &mut Session, text: String) -> (r: Result<CommandReply, String>)
    ensures
        prompt_handled(*old(session), *final(session), text, r),
{
    proof {
        reveal_strlit("Prompt text cannot be empty");
        reveal_strlit("prompt");
        reveal_strlit("Worker not found: main");
    }
    if is_blank(text.as_str()) {
        return Err(owned("Prompt text cannot be empty"));
    }
    let m = match find_main(session.get_workers()) {
        Some(m) => m,
        None => return Ok(CommandReply::Send(error_event("prompt", owned("Worker not found: main")))),
    };
    proof {
        lemma_main_unique(session.workers_view(), m as int);
    }
    let id = session.get_workers()[m].id;
    let ghost ws0 = session.workers_view();
    let ghost ev0 = session.published();
    assert(ws0[m as int].id == id);
    session.push_input_message(id, text.clone());
    let ghost ws1 = session.workers_view();
    proof {
        lemma_prompt_then_busy(ws0, ws1, id, text);
    }
    let t = now();
    session.publish(
        AgentEnvironmentEvent::WebUI(crate::events::WebUIEvent::PromptReceived { worker_id: id, text, timestamp: t }),
    );
    let ghost ev1 = session.published();
    let ticket = session.run_task__agent_loop(id, AgentLoopInput {});
    proof {
        let ev = session.published();
        let n = ev0.len() as int;
        assert(ev.drop_last().drop_last() == ev1);
        assert(ev1.len() == n + 1 && ev.len() == n + 3);
        assert forall|i: int| 0 <= i < n implies ev[i] == ev0[i] by {
            assert(ev[i] == ev.drop_last()[i]);
            assert(ev.drop_last()[i] == ev.drop_last().drop_last()[i]);
            assert(ev1[i] == ev0[i]);
        }
        assert(ev.take(n) =~= ev0);
        assert(ev[n] == ev1[n]);
        assert(ev[n + 1] == ev.drop_last().last());
    }
    Ok(CommandReply::Launched(ticket))
}

fn create_worker(session: &mut Session, name: Option<String>, agent: String, working_directory: Option<String>) -> (r:
    Result<CommandReply, String>)
    requires
        !blank(agent@) ==> old(session).providers() > 0,
    ensures
        create_handled(*old(session), *final(session), name, agent, working_directory, r),
{
    proof {
        reveal_strlit("Agent name cannot be empty");
        reveal_strlit("agent");
        reveal_strlit("working_directory");
    }
    if is_blank(agent.as_str()) {
        return Err(owned("Agent name cannot be empty"));
    }
    let worker_name = match name {
        Some(n) => n,
        None => generate_worker_name(agent.as_str(), session),
    };
    session.build_worker(worker_name);
    let last = session.get_workers().len() - 1;
    session.set_task_metadata_at(last, "agent", MetadataValue::String(agent));
    match working_directory {
        Some(wd) => session.set_task_metadata_at(last, "working_directory", MetadataValue::String(wd)),
        None => {},
    }
    proof {
        assert(session.workers_view().drop_last() =~= old(session).workers_view());
    }
    Ok(CommandReply::Nothing)
}

fn conversation_history(session: &Session, worker_id: String) -> (r: Result<CommandReply, String>)
    ensures
        history_answered(session.workers_view(), worker_id, r),
{
    proof {
        reveal_strlit("Worker ID cannot be empty");
        reveal_strlit("get_conversation_history");
        reveal_strlit("Invalid worker ID format");
        reveal_strlit("Worker not found: ");
    }
    if is_blank(worker_id.as_str()) {
        return Err(owned("Worker ID cannot be empty"));
    }
    let id = match parse_id(worker_id.as_str()) {
        Some(id) => id,
        None => return Ok(
            CommandReply::Send(error_event("get_conversation_history", owned("Invalid worker ID format"))),
        ),
    };
    match session.get_worker(id) {
        Some(w) => {
            let entries = history_entries(w.context_container.conversation_history.get_entries());
            Ok(CommandReply::Send(WebUIEvent::ConversationSnapshot { worker_id, entries, timestamp: Stamp::Now }))
        },
        None => {
            let mut message = owned("Worker not found: ");
            message.append(worker_id.as_str());
            Ok(CommandReply::Send(error_event("get_conversation_history", message)))
        },
    }
}

/// The events a browser gets when it connects: the workers snapshot, then the
/// conversation of the first worker named `main`, if there is one.
pub fn initial_snapshots(session: &Session) -> (r: Vec<WebUIEvent>)
    ensures
        r@.len() == if has_main(session.workers_view()) {
            2int
        } else {
            1int
        },
        workers_snapshot(session.workers_view(), r@[0]),
        has_main(session.workers_view()) ==> {
            let w = session.workers_view()[main_index(session.workers_view())];
            r@[1] matches WebUIEvent::ConversationSnapshot { worker_id, entries, timestamp: Stamp::Now }
                && worker_id@ == hyphenated(w.id) && shows_history(
                w.context_container.conversation_history@,
                entries@,
            )
        },
{
    let ws = session.get_workers();
    let mut r: Vec<WebUIEvent> = Vec::new();
    let workers = list_workers(ws);
    r.push(WebUIEvent::WorkersSnapshot { workers, timestamp: Stamp::Now });
    match find_main(ws) {
        Some(m) => {
            proof {
                lemma_main_unique(ws@, m as int);
            }
            let w = &ws[m];
            let entries = history_entries(w.context_container.conversation_history.get_entries());
            r.push(
                WebUIEvent::ConversationSnapshot { worker_id: id_to_string(w.id), entries, timestamp: Stamp::Now },
            );
        },
        None => {},
    }
    r
}

} // verus!
