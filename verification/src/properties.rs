//! Properties that relate the operations of the library to each other.
use vstd::prelude::*;
use crate::commands::{parse_spec, AgentCommandView, CommandView};
use crate::context::{entry_messages, history_messages, joined_resources, resource_plan, resource_section};
use crate::conversation::{
    assistant_content, user_prompt, with_input, with_reply, AssistantMessage, ConversationEntry, UserMessage,
};
use crate::events::{
    event_timestamp, event_worker_id, AgentEnvironmentEvent, JobCompletionResult, JobEvent, OutputChunk,
    WorkerEvent, WorkerLifecycleState,
};
use crate::ids::{hyphenated, parsed_id, NIL_ID};
use crate::model::MessageRole;
use crate::structured_io::{input_spec, line_for, style_of, InputField, InputJson, OutputStyle, StructuredLine};
use crate::ui_utils::text_reaction;
use std::time::Instant;
use crate::text::{lemma_trimmed_idempotent, trimmed};
use crate::metadata::{value_text, MetadataValue};
use crate::session::{
    active_jobs, any_active, cancelled, jobs_cancelled, cleanup_spec, first_worker, first_worker_index,
    has_worker, inactive_jobs, is_active, is_inactive, lemma_first_worker_unique, lifecycle_set, JobRecord,
    MAX_INACTIVE_JOBS,
};
use crate::web::events::{converts, web_event_worker, Stamp, WebUIEvent};
use crate::web::websocket::{command_handled, validation, CommandReply, WebSocketCommand};
use crate::session::Session;
use crate::worker::Worker;

verus! {

proof fn lemma_filter_all_active(js: Seq<JobRecord>)
    requires
        forall|i: int| 0 <= i < js.len() ==> js[i].active,
    ensures
        active_jobs(js) == js,
        inactive_jobs(js) == Seq::<JobRecord>::empty(),
    decreases js.len(),
{
    reveal_with_fuel(Seq::filter, 1);
    if js.len() > 0 {
        lemma_filter_all_active(js.drop_last());
        assert(js.drop_last().push(js.last()) =~= js);
    } else {
        assert(js =~= Seq::<JobRecord>::empty());
    }
}

proof fn lemma_filter_none_active(js: Seq<JobRecord>)
    requires
        forall|i: int| 0 <= i < js.len() ==> !js[i].active,
    ensures
        active_jobs(js) == Seq::<JobRecord>::empty(),
        inactive_jobs(js) == js,
    decreases js.len(),
{
    reveal_with_fuel(Seq::filter, 1);
    if js.len() > 0 {
        lemma_filter_none_active(js.drop_last());
        assert(js.drop_last().push(js.last()) =~= js);
    } else {
        assert(js =~= Seq::<JobRecord>::empty());
    }
}

/// Cleanup keeps every running job, in order, and of the finished jobs only the most
/// recent ones, at most `MAX_INACTIVE_JOBS`, in order, after the running ones; with no
/// more finished jobs than that it keeps them all.
pub proof fn cleanup_keeps_running_and_recent(js: Seq<JobRecord>)
    ensures
        cleanup_spec(js) == active_jobs(js) + inactive_jobs(cleanup_spec(js)),
        active_jobs(cleanup_spec(js)) == active_jobs(js),
        inactive_jobs(cleanup_spec(js)).len() <= MAX_INACTIVE_JOBS,
        inactive_jobs(cleanup_spec(js)) == inactive_jobs(js).skip(
            inactive_jobs(js).len() - inactive_jobs(cleanup_spec(js)).len(),
        ),
        inactive_jobs(js).len() <= MAX_INACTIVE_JOBS ==> inactive_jobs(cleanup_spec(js)) == inactive_jobs(js),
{
    let a = active_jobs(js);
    let inact = inactive_jobs(js);
    let keep_from: int = if inact.len() > MAX_INACTIVE_JOBS { inact.len() - MAX_INACTIVE_JOBS } else { 0 };
    let b = inact.skip(keep_from);
    assert(cleanup_spec(js) == a + b);
    js.filter_lemma(|j: JobRecord| is_active(j));
    js.filter_lemma(|j: JobRecord| is_inactive(j));
    assert forall|i: int| 0 <= i < a.len() implies a[i].active by {
        assert(is_active(a[i]));
    }
    assert forall|i: int| 0 <= i < b.len() implies !b[i].active by {
        assert(b[i] == inact[i + keep_from]);
        assert(is_inactive(inact[i + keep_from]));
    }
    lemma_filter_all_active(a);
    lemma_filter_none_active(b);
    Seq::filter_distributes_over_add(a, b, |j: JobRecord| is_active(j));
    Seq::filter_distributes_over_add(a, b, |j: JobRecord| is_inactive(j));
    assert(active_jobs(a + b) =~= a);
    assert(inactive_jobs(a + b) =~= b);
    if inact.len() <= MAX_INACTIVE_JOBS {
        assert(b =~= inact);
    }
}

/// Cleaning up twice keeps what cleaning up once keeps.
pub proof fn cleanup_is_idempotent(js: Seq<JobRecord>)
    ensures
        cleanup_spec(cleanup_spec(js)) == cleanup_spec(js),
{
    cleanup_keeps_running_and_recent(js);
    let c = cleanup_spec(js);
    cleanup_keeps_running_and_recent(c);
    let inact = inactive_jobs(c);
    assert(inact.skip(0) =~= inact);
    assert(cleanup_spec(c) == active_jobs(c) + inact.skip(0));
}

/// The running and the finished jobs together are all the jobs, and some job runs exactly
/// when the count of running jobs is not zero.
pub proof fn job_counts_cover_every_job(js: Seq<JobRecord>)
    ensures
        active_jobs(js).len() + inactive_jobs(js).len() == js.len(),
        active_jobs(js).len() > 0 <==> any_active(js),
{
    crate::session::lemma_filters_split(js);
}

/// After a worker is moved to a lifecycle state, looking it up finds it in that state, and
/// no other worker changed.
pub proof fn lifecycle_read_after_write(ws: Seq<Worker>, id: u128, s: WorkerLifecycleState)
    requires
        has_worker(ws, id),
    ensures
        has_worker(lifecycle_set(ws, id, s), id),
        lifecycle_set(ws, id, s)[first_worker_index(lifecycle_set(ws, id, s), id)].lifecycle_state == s,
        lifecycle_set(ws, id, s).len() == ws.len(),
        forall|j: int|
            0 <= j < ws.len() && j != first_worker_index(ws, id) ==> #[trigger] lifecycle_set(ws, id, s)[j]
                == ws[j],
{
    let k = crate::session::lemma_some_first_worker(ws, id);
    lemma_first_worker_unique(ws, id, k);
    let after = lifecycle_set(ws, id, s);
    assert(first_worker(after, id, k));
    lemma_first_worker_unique(after, id, k);
}

/// After a worker is deleted, no worker has its identifier, and every other worker stays.
pub proof fn deleted_worker_is_gone(ws: Seq<Worker>, id: u128, w: Worker)
    ensures
        !has_worker(ws.filter(|x: Worker| x.id != id), id),
        ws.contains(w) && w.id != id ==> ws.filter(|x: Worker| x.id != id).contains(w),
{
    let kept = ws.filter(|x: Worker| x.id != id);
    ws.filter_lemma(|x: Worker| x.id != id);
    if has_worker(kept, id) {
        let i = choose|i: int| 0 <= i < kept.len() && kept[i].id == id;
        assert(kept[i].id != id);
    }
    if ws.contains(w) && w.id != id {
        ws.lemma_filter_contains_rev(|x: Worker| x.id != id, w);
    }
}

/// Cancelling the jobs of a worker twice is cancelling them once: each of its jobs stays
/// cancelled on the same token state, and the other jobs stay as they were.
pub proof fn cancelling_twice_is_cancelling_once(
    a: Seq<JobRecord>,
    b: Seq<JobRecord>,
    c: Seq<JobRecord>,
    id: u128,
)
    requires
        jobs_cancelled(a, b, id),
        jobs_cancelled(b, c, id),
    ensures
        jobs_cancelled(a, c, id),
{
    assert forall|k: int| 0 <= k < a.len() implies if a[k].worker_id == id {
        cancelled(a[k], #[trigger] c[k])
    } else {
        c[k] == a[k]
    } by {
        let x = b[k];
        let y = c[k];
    }
}

/// A reply that follows a prompt completes the prompt's entry: the conversation gains one
/// entry holding both.
pub proof fn reply_completes_prompt_entry(h: Seq<ConversationEntry>, m: UserMessage, a: AssistantMessage)
    ensures
        with_reply(with_input(h, m), a) == h.push(ConversationEntry { user: Some(m), assistant: Some(a) }),
{
    assert(with_reply(with_input(h, m), a) =~= h.push(ConversationEntry { user: Some(m), assistant: Some(a) }));
}

/// A text written under a key reads back as that text, and the other keys keep their
/// values.
pub proof fn metadata_text_read_after_write(
    m: Map<Seq<char>, MetadataValue>,
    key: Seq<char>,
    other: Seq<char>,
    s: String,
)
    ensures
        m.insert(key, MetadataValue::String(s)).contains_key(key),
        value_text(m.insert(key, MetadataValue::String(s))[key]) == Some(s@),
        other != key ==> m.insert(key, MetadataValue::String(s)).contains_key(other) == m.contains_key(other)
            && m.insert(key, MetadataValue::String(s))[other] == m[other],
{
}

/// The web form of an event is about the same worker, its identifier as hyphenated text,
/// and keeps the event's time.
pub proof fn web_form_keeps_worker_and_time(e: AgentEnvironmentEvent, r: WebUIEvent)
    requires
        converts(e, r),
    ensures
        match event_worker_id(e) {
            Some(id) => web_event_worker(r) matches Some(w) && w@ == hyphenated(id),
            None => web_event_worker(r) is None,
        },
        r matches WebUIEvent::WorkerCreated { timestamp, .. } ==> timestamp == Stamp::At(event_timestamp(e)),
        r matches WebUIEvent::JobCompleted { timestamp, .. } ==> timestamp == Stamp::At(event_timestamp(e)),
{
}

/// Whitespace around a line of input does not change what it means.
pub proof fn surrounding_whitespace_is_ignored(input: Seq<char>)
    ensures
        parse_spec(trimmed(input)) == parse_spec(input),
{
    lemma_trimmed_idempotent(input);
}

/// A line that does not start with `/` (once trimmed) is always a prompt, of its trimmed
/// text, for the worker to be filled in.
pub proof fn plain_lines_are_prompts(input: Seq<char>)
    requires
        !(trimmed(input).len() > 0 && trimmed(input)[0] == '/'),
    ensures
        parse_spec(input) == Ok::<CommandView, Seq<char>>(
            CommandView::Agent(AgentCommandView::Prompt { worker_id: NIL_ID, text: trimmed(input) }),
        ),
{
}

/// A browser's command is refused exactly when it is invalid, and a refused command
/// leaves the session as it was.
pub proof fn refused_exactly_when_invalid(
    before: Session,
    after: Session,
    command: WebSocketCommand,
    r: Result<CommandReply, String>,
)
    requires
        command_handled(before, after, command, r),
    ensures
        r is Err <==> validation(command) is Some,
        r matches Err(e) ==> validation(command) == Some(e@) && after == before,
{
}

/// The messages sent to the model follow the conversation: those of a history with one
/// more entry are those of the history, then those of the new entry.
pub proof fn messages_follow_conversation_order(h: Seq<ConversationEntry>, e: ConversationEntry)
    ensures
        history_messages(h.push(e)) == history_messages(h) + entry_messages(e),
{
    assert(h.push(e).drop_last() =~= h);
}

/// The newest entry's messages come last, the user's text before the assistant's reply:
/// a pending prompt is the last message sent, and a reply directly follows its prompt.
pub proof fn newest_prompt_and_reply_come_last(
    h: Seq<ConversationEntry>,
    m: UserMessage,
    a: Option<AssistantMessage>,
)
    ensures
        ({
            let all = history_messages(h.push(ConversationEntry { user: Some(m), assistant: a }));
            let n = history_messages(h).len() as int;
            let text = match user_prompt(m) {
                Some(p) => p,
                None => Seq::<char>::empty(),
            };
            &&& all.take(n) == history_messages(h)
            &&& all[n] == (MessageRole::User, text)
            &&& match a {
                Some(r) => all.len() == n + 2 && all[n + 1] == (MessageRole::Assistant, assistant_content(r)@),
                None => all.len() == n + 1 && all.last() == (MessageRole::User, text),
            }
        }),
{
    let e = ConversationEntry { user: Some(m), assistant: a };
    messages_follow_conversation_order(h, e);
    let all = history_messages(h.push(e));
    let n = history_messages(h).len() as int;
    assert(all.take(n) =~= history_messages(h));
}

/// Loaded files reach the request context in the order they were listed: one more file
/// adds its section after those of the files before it, and a file that could not be read
/// adds nothing.
pub proof fn resources_keep_their_order(
    loaded: Seq<(Seq<char>, Option<Seq<char>>)>,
    path: Seq<char>,
    content: Option<Seq<char>>,
)
    ensures
        joined_resources(loaded.push((path, content))) == joined_resources(loaded) + match content {
            Some(c) => resource_section(path, c),
            None => Seq::<char>::empty(),
        },
        content is Some ==> joined_resources(loaded).is_prefix_of(joined_resources(loaded.push((path, content)))),
{
    assert(loaded.push((path, content)).drop_last() =~= loaded);
    let before = joined_resources(loaded);
    let after = joined_resources(loaded.push((path, content)));
    assert(after.take(before.len() as int) =~= before);
}

/// References are planned in the order they are listed; one that is not a `file://`
/// reference is skipped, and a `file://` one adds its path, without the scheme, last.
pub proof fn resource_references_keep_their_order(refs: Seq<Seq<char>>, r: Seq<char>)
    ensures
        resource_plan(refs).is_prefix_of(resource_plan(refs.push(r))),
        resource_plan(refs.push(r)).len() == resource_plan(refs).len() + if r.len() >= 7 && r.take(7)
            == "file://"@ {
            1int
        } else {
            0int
        },
        r.len() >= 7 && r.take(7) == "file://"@ ==> resource_plan(refs.push(r)).last().1 == r.skip(7),
{
    reveal_strlit("file://");
    assert(refs.push(r).drop_last() =~= refs);
    let before = resource_plan(refs);
    let after = resource_plan(refs.push(r));
    assert(after.take(before.len() as int) =~= before);
}

/// The text interface lets the user type again exactly when its own worker returns to an
/// idle state (after a reply or after a failure); while it works, it does not.
pub proof fn idle_worker_lets_user_type(
    main: u128,
    old_state: WorkerLifecycleState,
    new_state: WorkerLifecycleState,
    t: Instant,
)
    ensures
        ({
            let e = AgentEnvironmentEvent::Worker(
                WorkerEvent::LifecycleStateChanged { worker_id: main, old_state, new_state, timestamp: t },
            );
            &&& text_reaction(main, e).1 == (new_state != WorkerLifecycleState::Busy)
            &&& new_state == WorkerLifecycleState::Busy ==> text_reaction(main, e).0 is None
            &&& new_state != WorkerLifecycleState::Busy ==> text_reaction(main, e).0 is Some
        }),
{
}

/// The text interface ignores the events of other workers: it neither prints nor asks for
/// input.
pub proof fn other_workers_are_ignored(main: u128, e: AgentEnvironmentEvent)
    requires
        event_worker_id(e) matches Some(w) && w != main,
    ensures
        text_reaction(main, e).0 is None,
        !text_reaction(main, e).1,
{
}

/// The text interface asks for input only when its own worker has just returned to an idle
/// state; no other event gives the prompt back.
pub proof fn prompt_returns_only_when_worker_goes_idle(main: u128, e: AgentEnvironmentEvent)
    ensures
        text_reaction(main, e).1 ==> (e matches AgentEnvironmentEvent::Worker(
            WorkerEvent::LifecycleStateChanged { worker_id, new_state, .. },
        ) && worker_id == main && new_state != WorkerLifecycleState::Busy),
{
}

/// When its worker goes idle the text interface ends the line before asking for input, and
/// a failed task is reported differently from a finished one.
pub proof fn idle_output_ends_the_line(
    main: u128,
    o: WorkerLifecycleState,
    n: WorkerLifecycleState,
    t: Instant,
)
    requires
        n != WorkerLifecycleState::Busy,
    ensures
        (text_reaction(
            main,
            AgentEnvironmentEvent::Worker(
                WorkerEvent::LifecycleStateChanged { worker_id: main, old_state: o, new_state: n, timestamp: t },
            ),
        ).0 matches Some(s) && s.len() > 0 && s.last() == '\n'),
        text_reaction(
            main,
            AgentEnvironmentEvent::Worker(
                WorkerEvent::LifecycleStateChanged {
                    worker_id: main,
                    old_state: o,
                    new_state: WorkerLifecycleState::Idle,
                    timestamp: t,
                },
            ),
        ).0 != text_reaction(
            main,
            AgentEnvironmentEvent::Worker(
                WorkerEvent::LifecycleStateChanged {
                    worker_id: main,
                    old_state: o,
                    new_state: WorkerLifecycleState::IdleFailed,
                    timestamp: t,
                },
            ),
        ).0,
{
    reveal_strlit("\n");
    reveal_strlit("\n[Task failed]\n");
    assert("\n"@ != "\n[Task failed]\n"@) by {
        assert("\n"@.len() != "\n[Task failed]\n"@.len());
    }
}

/// The model's reply text reaches the user as it comes, unchanged, and does not yet give
/// the prompt back.
pub proof fn reply_text_is_shown_as_it_comes(main: u128, j: u128, text: String, t: Instant)
    ensures
        text_reaction(
            main,
            AgentEnvironmentEvent::Job(
                JobEvent::OutputChunk {
                    worker_id: main,
                    job_id: j,
                    chunk: OutputChunk::AssistantResponse(text),
                    timestamp: t,
                },
            ),
        ) == (Some(text@), false),
{
}

/// The `result` field of a `job_completed` line names the job's result, and distinct
/// results give distinct fields: `success` only for a success, `cancelled` only for a
/// cancellation, `failed` only for a failure.
pub proof fn job_completed_line_names_its_result(
    w: u128,
    j: u128,
    r: JobCompletionResult,
    t: Instant,
    l: Option<StructuredLine>,
)
    requires
        line_for(AgentEnvironmentEvent::Job(JobEvent::Completed { worker_id: w, job_id: j, result: r, timestamp: t }), l),
    ensures
        l matches Some(StructuredLine::JobCompleted { worker_id, job_id, result: f, timestamp })
            && worker_id == w && job_id == j && timestamp == t
            && (f@ == "success"@ <==> r is Success)
            && (f@ == "cancelled"@ <==> r is Cancelled)
            && (f@ == "failed"@ <==> r is Failed),
{
    reveal_strlit("success");
    reveal_strlit("cancelled");
    reveal_strlit("failed");
    assert("success"@ != "cancelled"@ && "success"@ != "failed"@ && "cancelled"@ != "failed"@) by {
        assert("success"@.len() != "cancelled"@.len());
        assert("success"@.len() != "failed"@.len());
        assert("cancelled"@.len() != "failed"@.len());
    }
}

/// The worker a structured line speaks of, where it speaks of one.
pub open spec fn line_worker(l: StructuredLine) -> Option<u128> {
    match l {
        StructuredLine::WorkerCreated { worker_id, .. } => Some(worker_id),
        StructuredLine::WorkerDeleted { worker_id, .. } => Some(worker_id),
        StructuredLine::LifecycleState { worker_id, .. } => Some(worker_id),
        StructuredLine::JobStarted { worker_id, .. } => Some(worker_id),
        StructuredLine::JobCompleted { worker_id, .. } => Some(worker_id),
        StructuredLine::AssistantResponse { worker_id, .. } => Some(worker_id),
        StructuredLine::ToolUseRequest { worker_id, .. } => Some(worker_id),
        StructuredLine::WebUiPrompt { worker_id, .. } => Some(worker_id),
        StructuredLine::WebUiServerStarted { .. } => None,
        StructuredLine::WebUiWebSocketConnected => None,
    }
}

/// A line written for a worker's event speaks of that worker, and a line that speaks of a
/// worker comes from an event of that worker.
pub proof fn line_names_the_event_worker(e: AgentEnvironmentEvent, l: StructuredLine)
    requires
        line_for(e, Some(l)),
    ensures
        line_worker(l) == event_worker_id(e),
{
}

/// Of the `job_completed` lines, exactly those of failed jobs are shown in red.
pub proof fn only_failed_jobs_are_red(
    w: u128,
    j: u128,
    r: JobCompletionResult,
    t: Instant,
    l: StructuredLine,
)
    requires
        line_for(AgentEnvironmentEvent::Job(JobEvent::Completed { worker_id: w, job_id: j, result: r, timestamp: t }), Some(l)),
    ensures
        (style_of(l) == OutputStyle::Red) <==> r is Failed,
        !(r is Failed) ==> style_of(l) == OutputStyle::Dimmed,
{
    job_completed_line_names_its_result(w, j, r, t, Some(l));
}

/// A lifecycle line names the new state, and distinct states give distinct names.
pub proof fn lifecycle_line_names_the_new_state(
    w: u128,
    o: WorkerLifecycleState,
    n: WorkerLifecycleState,
    t: Instant,
    l: Option<StructuredLine>,
)
    requires
        line_for(
            AgentEnvironmentEvent::Worker(
                WorkerEvent::LifecycleStateChanged { worker_id: w, old_state: o, new_state: n, timestamp: t },
            ),
            l,
        ),
    ensures
        l matches Some(StructuredLine::LifecycleState { worker_id, lifecycle_state: f }) && worker_id == w
            && (f@ == "idle"@ <==> n == WorkerLifecycleState::Idle)
            && (f@ == "busy"@ <==> n == WorkerLifecycleState::Busy)
            && (f@ == "idle_failed"@ <==> n == WorkerLifecycleState::IdleFailed),
{
    reveal_strlit("idle");
    reveal_strlit("busy");
    reveal_strlit("idle_failed");
    assert("idle"@ != "busy"@) by {
        assert("idle"@[0] != "busy"@[0]);
    }
    assert("idle"@ != "idle_failed"@ && "busy"@ != "idle_failed"@) by {
        assert("idle"@.len() != "idle_failed"@.len());
        assert("busy"@.len() != "idle_failed"@.len());
    }
}

/// A JSON prompt line whose `worker_id` is the text of a UUID goes to that worker, with or
/// without a command field; a line without one carries its `text`, else its `prompt`.
pub proof fn addressed_line_goes_to_its_worker(
    ws: Seq<Worker>,
    line: Seq<char>,
    j: InputJson,
    id_text: String,
    u: u128,
)
    requires
        trimmed(line).len() > 0,
        j.worker_id == InputField::Text(id_text),
        parsed_id(id_text@) == Some(u),
        j.command matches InputField::Text(c) ==> c@ == "prompt"@,
    ensures
        input_spec(ws, line, Some(j)) matches Some(Some((w, _))) && w == u,
        j.text matches InputField::Text(x) ==> input_spec(ws, line, Some(j)) == Some(Some((u, x@))),
        j.command is Missing && j.text is Missing ==> (j.prompt matches InputField::Text(p) ==> input_spec(
            ws,
            line,
            Some(j),
        ) == Some(Some((u, p@)))),
{
    reveal_strlit("quit");
    reveal_strlit("prompt");
    assert("prompt"@ != "quit"@) by {
        assert("prompt"@.len() != "quit"@.len());
    }
}

/// A JSON line whose command is `quit` asks to quit, whoever it addresses.
pub proof fn quit_line_quits(ws: Seq<Worker>, line: Seq<char>, j: InputJson)
    requires
        trimmed(line).len() > 0,
        j.command matches InputField::Text(c) && c@ == "quit"@,
    ensures
        input_spec(ws, line, Some(j)) is None,
{
}

/// The web form of a lifecycle change keeps its states: its old state is the event's old
/// state and its new state the event's new state, each under the same name.
pub proof fn web_state_change_keeps_its_states(
    id: u128,
    o: WorkerLifecycleState,
    n: WorkerLifecycleState,
    t: Instant,
    r: WebUIEvent,
)
    requires
        converts(
            AgentEnvironmentEvent::Worker(
                WorkerEvent::LifecycleStateChanged { worker_id: id, old_state: o, new_state: n, timestamp: t },
            ),
            r,
        ),
    ensures
        r matches WebUIEvent::WorkerStateChanged { worker_id, old_state: wo, new_state: wn, timestamp }
            && worker_id@ == hyphenated(id) && timestamp == Stamp::At(t)
            && (wo is Idle <==> o == WorkerLifecycleState::Idle)
            && (wo is Busy <==> o == WorkerLifecycleState::Busy)
            && (wo is IdleFailed <==> o == WorkerLifecycleState::IdleFailed)
            && (wn is Idle <==> n == WorkerLifecycleState::Idle)
            && (wn is Busy <==> n == WorkerLifecycleState::Busy)
            && (wn is IdleFailed <==> n == WorkerLifecycleState::IdleFailed),
{
}

} // verus!
