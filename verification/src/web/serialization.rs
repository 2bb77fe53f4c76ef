//! JSON views of conversations and workers for the web interface.
use vstd::prelude::*;
use crate::conversation::{AssistantMessage, AssistantToolUse, ConversationEntry, UserMessage, UserMessageContent};
use crate::events::{ToolInput, WorkerLifecycleState};
use crate::ids::{hyphenated, id_to_string};
use crate::metadata::value_text;
use crate::text::{decimal, owned, push_decimal};
use crate::web::events::Stamp;
use crate::worker::Worker;

verus! {

broadcast use vstd::string::group_string_axioms;

/// A tool use in a conversation entry.
#[derive(Clone, Debug)]
pub struct ToolUseJson {
    pub tool_name: String,
    pub tool_input: ToolInput,
}

/// A conversation entry as the web interface shows it.
#[derive(Clone, Debug)]
pub enum ConversationEntryJson {
    UserMessage { content: String, timestamp: Stamp },
    AssistantMessage { content: String, timestamp: Stamp },
    ToolUse { content: String, tool_uses: Vec<ToolUseJson>, timestamp: Stamp },
}

/// A worker as the web interface lists it.
#[derive(Clone, Debug)]
pub struct WorkerMetadataJson {
    pub id: String,
    pub name: String,
    pub agent: String,
    pub state: WorkerLifecycleState,
}

/// The text shown for a user message.
pub open spec fn user_content(m: UserMessage) -> Seq<char> {
    match m.content {
        UserMessageContent::Prompt { prompt } => prompt@,
        UserMessageContent::CancelledToolUses { prompt } => match prompt {
            Some(p) => p@,
            None => "[Cancelled]"@,
        },
        UserMessageContent::ToolUseResults => "[Tool Results]"@,
    }
}

/// The text shown for a user message: its prompt, `[Cancelled]` for cancelled tool uses
/// without one, `[Tool Results]` for tool results.
pub fn extract_user_content(user_msg: &UserMessage) -> (s: String)
    ensures
        s@ == user_content(*user_msg),
{
    proof {
        reveal_strlit("[Cancelled]");
        reveal_strlit("[Tool Results]");
    }
    match &user_msg.content {
        UserMessageContent::Prompt { prompt } => prompt.clone(),
        UserMessageContent::CancelledToolUses { prompt } => match prompt {
            Some(p) => p.clone(),
            None => owned("[Cancelled]"),
        },
        UserMessageContent::ToolUseResults => owned("[Tool Results]"),
    }
}

/// A tool use of an assistant message as the web interface shows it.
pub fn convert_tool_use(tool_use: &AssistantToolUse) -> (t: ToolUseJson)
    ensures
        t.tool_name == tool_use.name,
        t.tool_input == tool_use.args,
{
    ToolUseJson { tool_name: tool_use.name.clone(), tool_input: tool_use.args.duplicate() }
}

/// `r` shows conversation entry `e`: its user message with the message's time or the
/// present; else a plain reply, or a tool use reply as `Using N tool(s)` with its tool
/// uses, at the present; an empty entry as an empty user message.
pub open spec fn shows_entry(e: ConversationEntry, r: ConversationEntryJson) -> bool {
    match e.user {
        Some(u) => r matches ConversationEntryJson::UserMessage { content, timestamp } && content@ == user_content(u)
            && timestamp == match u.timestamp {
            Some(s) => Stamp::UnixSeconds(s),
            None => Stamp::Now,
        },
        None => match e.assistant {
            Some(AssistantMessage::Response { content, .. }) => r matches ConversationEntryJson::AssistantMessage {
                content: c,
                timestamp: Stamp::Now,
            } && c == content,
            Some(AssistantMessage::ToolUse { tool_uses, .. }) => r matches ConversationEntryJson::ToolUse {
                content,
                tool_uses: t,
                timestamp: Stamp::Now,
            } && content@ == "Using "@ + decimal(tool_uses@.len()) + " tool(s)"@ && t@.len() == tool_uses@.len()
                && forall|i: int|
                0 <= i < t@.len() ==> (#[trigger] t@[i]).tool_name == tool_uses@[i].name && t@[i].tool_input
                    == tool_uses@[i].args,
            None => r matches ConversationEntryJson::UserMessage { content, timestamp: Stamp::Now } && content@.len()
                == 0,
        },
    }
}

/// A conversation entry as the web interface shows it.
pub fn convert_conversation_entry(entry: &ConversationEntry) -> (r: ConversationEntryJson)
    ensures
        shows_entry(*entry, r),
{
    proof {
        reveal_strlit("Using ");
        reveal_strlit(" tool(s)");
    }
    match &entry.user {
        Some(user_msg) => {
            let content = extract_user_content(user_msg);
            let timestamp = match user_msg.timestamp {
                Some(s) => Stamp::UnixSeconds(s),
                None => Stamp::Now,
            };
            return ConversationEntryJson::UserMessage { content, timestamp };
        },
        None => {},
    }
    match &entry.assistant {
        Some(AssistantMessage::Response { content, .. }) => ConversationEntryJson::AssistantMessage {
            content: content.clone(),
            timestamp: Stamp::Now,
        },
        Some(AssistantMessage::ToolUse { tool_uses, .. }) => {
            let mut content = owned("Using ");
            push_decimal(&mut content, tool_uses.len() as u128);
            content.append(" tool(s)");
            let mut json: Vec<ToolUseJson> = Vec::new();
            let mut i: usize = 0;
            while i < tool_uses.len()
                invariant
                    i <= tool_uses@.len(),
                    json@.len() == i,
                    forall|k: int|
                        0 <= k < i ==> (#[trigger] json@[k]).tool_name == tool_uses@[k].name && json@[k].tool_input
                            == tool_uses@[k].args,
                decreases tool_uses.len() - i,
            {
                json.push(convert_tool_use(&tool_uses[i]));
                i = i + 1;
            }
            ConversationEntryJson::ToolUse { content, tool_uses: json, timestamp: Stamp::Now }
        },
        None => ConversationEntryJson::UserMessage { content: String::new(), timestamp: Stamp::Now },
    }
}

/// The agent of a worker as its metadata names it, or `default`.
pub open spec fn agent_of(w: Worker) -> Seq<char> {
    if w.task_metadata@.contains_key("agent"@) && value_text(w.task_metadata@["agent"@]) is Some {
        value_text(w.task_metadata@["agent"@])->0
    } else {
        "default"@
    }
}

/// A worker as the web interface lists it: identifier, name, agent, lifecycle state.
pub fn convert_worker_metadata(worker: &Worker) -> (m: WorkerMetadataJson)
    ensures
        m.id@ == hyphenated(worker.id),
        m.name == worker.name,
        m.agent@ == agent_of(*worker),
        m.state == worker.lifecycle_state,
{
    proof {
        reveal_strlit("agent");
        reveal_strlit("default");
    }
    let agent = match worker.task_metadata.get_str("agent") {
        Some(a) => a,
        None => owned("default"),
    };
    WorkerMetadataJson {
        id: id_to_string(worker.id),
        name: worker.name.clone(),
        agent,
        state: worker.lifecycle_state,
    }
}

} // verus!
