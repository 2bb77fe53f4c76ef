//! The decisions of the agent environment coordinator: what a command from a user
//! interface does, when the main loop stops, and when a finished job ends a
//! non-interactive run.
use vstd::prelude::*;
use crate::commands::{AgentEnvironmentCommand, PromptResult};
use crate::events::{AgentEnvironmentEvent, JobCompletionResult, JobEvent, UserInteractionRequired};
use crate::ids::{hyphenated, id_to_string};
use crate::session::{
    has_worker, job_added, launch_published_at, lemma_prompt_then_busy, prompt_started, JobTicket, Session,
};
use crate::text::owned;

verus! {

broadcast use vstd::string::group_string_axioms;

/// What a command did.
pub enum CommandEffect {
    /// An agent loop was launched.
    Launched(JobTicket),
    /// The user asked to quit.
    Shutdown,
}

/// The worker a task command names.
pub open spec fn command_worker(cmd: AgentEnvironmentCommand) -> Option<u128> {
    match cmd {
        AgentEnvironmentCommand::Prompt { worker_id, .. } => Some(worker_id),
        AgentEnvironmentCommand::Compact { worker_id, .. } => Some(worker_id),
        AgentEnvironmentCommand::Quit => None,
    }
}

/// The message for a worker that does not exist.
pub open spec fn worker_not_found(id: u128) -> Seq<char> {
    "Worker not found: "@ + hyphenated(id)
}

/// A command can be handled: compaction of an existing worker's conversation is not
/// available (callers stop before asking for it).
pub open spec fn command_supported(session: Session, cmd: AgentEnvironmentCommand) -> bool {
    cmd matches AgentEnvironmentCommand::Compact { worker_id, .. } ==> !has_worker(session.workers_view(), worker_id)
}

/// What a prompt for worker `id` does when the worker exists: the prompt goes into the
/// conversation of the first worker with that identifier, the worker becomes busy, and
/// a running agent loop job `job_id` is recorded and published.
pub open spec fn prompt_launched(before: Session, after: Session, id: u128, text: String, job_id: u128) -> bool {
    let n = before.published().len() as int;
    &&& prompt_started(before.workers_view(), after.workers_view(), id, text)
    &&& job_added(before.jobs_view(), after.jobs_view(), id, job_id)
    &&& after.published().take(n) == before.published()
    &&& launch_published_at(after.published(), n, before.workers_view(), id)
    &&& after.providers() == before.providers()
}

fn not_found_message(id: u128) -> (s: String)
    ensures
        s@ == worker_not_found(id),
{
    let mut s = owned("Worker not found: ");
    let t = id_to_string(id);
    s.append(t.as_str());
    proof {
        reveal_strlit("Worker not found: ");
    }
    s
}

/// Handles a command from a user interface: a prompt goes into the worker's conversation
/// and launches an agent loop; quitting asks for shutdown; a command for a missing worker
/// fails.
pub fn handle_command(session: &mut Session, cmd: AgentEnvironmentCommand) -> (r: Result<CommandEffect, String>)
    requires
        command_supported(*old(session), cmd),
    ensures
        match cmd {
            AgentEnvironmentCommand::Prompt { worker_id, text } => if has_worker(old(session).workers_view(), worker_id) {
                r matches Ok(CommandEffect::Launched(t)) && t.worker_id == worker_id && prompt_launched(
                    *old(session),
                    *final(session),
                    worker_id,
                    text,
                    t.job_id,
                )
            } else {
                r matches Err(e) && e@ == worker_not_found(worker_id) && *final(session) == *old(session)
            },
            AgentEnvironmentCommand::Compact { worker_id, .. } => r matches Err(e) && e@ == worker_not_found(worker_id)
                && *final(session) == *old(session),
            AgentEnvironmentCommand::Quit => r matches Ok(CommandEffect::Shutdown) && *final(session)
                == *old(session),
        },
{
    match cmd {
        AgentEnvironmentCommand::Prompt { worker_id, text } => {
            let ghost ws0 = session.workers_view();
            let ghost ev0 = session.published();
            let ghost prompt = text;
            if !session.push_input_message(worker_id, text) {
                return Err(not_found_message(worker_id));
            }
            proof {
                lemma_prompt_then_busy(ws0, session.workers_view(), worker_id, prompt);
            }
            let ticket = session.run_task__agent_loop(worker_id, crate::agent_loop::AgentLoopInput {});
            proof {
                let ev = session.published();
                let n = ev0.len() as int;
                assert(ev.drop_last().drop_last() == ev0);
                assert(ev.take(n) =~= ev0);
                assert(ev[n] == ev.drop_last().last());
            }
            Ok(CommandEffect::Launched(ticket))
        },
        AgentEnvironmentCommand::Compact { worker_id, .. } => Err(not_found_message(worker_id)),
        AgentEnvironmentCommand::Quit => Ok(CommandEffect::Shutdown),
    }
}

/// What the main loop does after a result from its user interface.
pub enum RunStep {
    /// Keep running; a launched job or a command error may need handling.
    Continue { launched: Option<JobTicket>, error: Option<String> },
    /// Stop; `notify_shutdown` when the shutdown signal is to be raised first.
    Stop { notify_shutdown: bool },
}

/// One turn of the main loop: a quit command raises the shutdown signal and stops the
/// loop, a shutdown request stops it, and any other command is handled and the loop goes
/// on.
pub fn run_step(session: &mut Session, result: PromptResult) -> (step: RunStep)
    requires
        result matches PromptResult::Command(cmd) ==> command_supported(*old(session), cmd),
    ensures
        match result {
            PromptResult::Shutdown => step matches RunStep::Stop { notify_shutdown } && !notify_shutdown
                && *final(session) == *old(session),
            PromptResult::Command(AgentEnvironmentCommand::Quit) => step matches RunStep::Stop { notify_shutdown }
                && notify_shutdown && *final(session) == *old(session),
            PromptResult::Command(AgentEnvironmentCommand::Prompt { worker_id, text }) => if has_worker(
                old(session).workers_view(),
                worker_id,
            ) {
                step matches RunStep::Continue { launched: Some(t), error: None } && t.worker_id == worker_id
                    && prompt_launched(*old(session), *final(session), worker_id, text, t.job_id)
            } else {
                step matches RunStep::Continue { launched: None, error: Some(e) } && e@ == worker_not_found(worker_id)
                    && *final(session) == *old(session)
            },
            PromptResult::Command(AgentEnvironmentCommand::Compact { worker_id, .. }) => step matches RunStep::Continue {
                launched: None,
                error: Some(e),
            } && e@ == worker_not_found(worker_id) && *final(session) == *old(session),
        },
{
    match result {
        PromptResult::Shutdown => RunStep::Stop { notify_shutdown: false },
        PromptResult::Command(cmd) => match handle_command(session, cmd) {
            Ok(CommandEffect::Shutdown) => RunStep::Stop { notify_shutdown: true },
            Ok(CommandEffect::Launched(t)) => RunStep::Continue { launched: Some(t), error: None },
            Err(e) => RunStep::Continue { launched: None, error: Some(e) },
        },
    }
}

/// What the completion monitor of a non-interactive run does with an event.
pub enum MonitorStep {
    /// Keep waiting.
    Ignore,
    /// Shut down, after printing the message if there is one.
    Shutdown(Option<String>),
}

/// The message printed when the last job of a non-interactive run ends.
pub open spec fn completion_message(r: JobCompletionResult) -> Option<Seq<char>> {
    match r {
        JobCompletionResult::Success { user_interaction_required, .. } => if user_interaction_required
            == UserInteractionRequired::ToolApproval {
            Some("Warning: Job completed with pending tool approval (non-clean exit)"@)
        } else {
            None
        },
        JobCompletionResult::Failed { error } => Some("Error: Job failed: "@ + error@),
        JobCompletionResult::Cancelled => Some("Warning: Job was cancelled"@),
    }
}

/// A completed job ends a non-interactive run when no job is left running; every other
/// event is ignored.
pub fn completion_monitor_step(event: &AgentEnvironmentEvent, has_active_jobs: bool) -> (step: MonitorStep)
    ensures
        match *event {
            AgentEnvironmentEvent::Job(JobEvent::Completed { result, .. }) => if has_active_jobs {
                step is Ignore
            } else {
                step matches MonitorStep::Shutdown(m) && match (m, completion_message(result)) {
                    (Some(a), Some(b)) => a@ == b,
                    (None, None) => true,
                    _ => false,
                }
            },
            _ => step is Ignore,
        },
{
    proof {
        reveal_strlit("Warning: Job completed with pending tool approval (non-clean exit)");
        reveal_strlit("Error: Job failed: ");
        reveal_strlit("Warning: Job was cancelled");
    }
    match event {
        AgentEnvironmentEvent::Job(JobEvent::Completed { result, .. }) => {
            if has_active_jobs {
                return MonitorStep::Ignore;
            }
            let message = match result {
                JobCompletionResult::Success { user_interaction_required, .. } => {
                    if *user_interaction_required == UserInteractionRequired::ToolApproval {
                        Some(owned("Warning: Job completed with pending tool approval (non-clean exit)"))
                    } else {
                        None
                    }
                },
                JobCompletionResult::Failed { error } => {
                    let mut m = owned("Error: Job failed: ");
                    m.append(error.as_str());
                    Some(m)
                },
                JobCompletionResult::Cancelled => Some(owned("Warning: Job was cancelled")),
            };
            MonitorStep::Shutdown(message)
        },
        _ => MonitorStep::Ignore,
    }
}

} // verus!
