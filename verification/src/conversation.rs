//! Conversation history of a worker: entries that pair a user message with the
//! assistant's reply.
use vstd::prelude::*;
use crate::events::ToolInput;

verus! {

broadcast use vstd::string::group_string_axioms;

/// A tool use requested in an assistant message.
#[derive(Clone, Debug)]
pub struct AssistantToolUse {
    pub id: String,
    pub name: String,
    pub args: ToolInput,
}

/// What a user message holds.
#[derive(Clone, Debug)]
pub enum UserMessageContent {
    /// A prompt typed by the user.
    Prompt { prompt: String },
    /// Tool uses that the user cancelled, with an optional prompt.
    CancelledToolUses { prompt: Option<String> },
    /// Results of tool uses.
    ToolUseResults,
}

/// A message from the user.
#[derive(Clone, Debug)]
pub struct UserMessage {
    pub content: UserMessageContent,
    /// When the message was written, in seconds since the Unix epoch, if known.
    pub timestamp: Option<i64>,
}

/// The prompt text of a user message, if it has one.
pub open spec fn user_prompt(m: UserMessage) -> Option<Seq<char>> {
    match m.content {
        UserMessageContent::Prompt { prompt } => Some(prompt@),
        UserMessageContent::CancelledToolUses { prompt } => match prompt {
            Some(p) => Some(p@),
            None => None,
        },
        UserMessageContent::ToolUseResults => None,
    }
}

impl UserMessage {
    /// A prompt message without a time stamp.
    pub fn new_prompt(prompt: String) -> (m: UserMessage)
        ensures
            m.content == (UserMessageContent::Prompt { prompt }),
            m.timestamp is None,
    {
        UserMessage { content: UserMessageContent::Prompt { prompt }, timestamp: None }
    }

    /// The prompt text, if the message has one.
    pub fn prompt(&self) -> (r: Option<&str>)
        ensures
            match r {
                Some(p) => user_prompt(*self) == Some(p@),
                None => user_prompt(*self) is None,
            },
    {
        match &self.content {
            UserMessageContent::Prompt { prompt } => Some(prompt.as_str()),
            UserMessageContent::CancelledToolUses { prompt } => match prompt {
                Some(p) => Some(p.as_str()),
                None => None,
            },
            UserMessageContent::ToolUseResults => None,
        }
    }

    /// The text sent to the model for this message: its prompt, or nothing.
    pub fn content_with_context(&self) -> (s: String)
        ensures
            s@ == match user_prompt(*self) {
                Some(p) => p,
                None => Seq::<char>::empty(),
            },
    {
        match self.prompt() {
            Some(p) => String::from_str(p),
            None => String::new(),
        }
    }
}

/// A message from the assistant.
#[derive(Clone, Debug)]
pub enum AssistantMessage {
    /// A plain response.
    Response { message_id: Option<String>, content: String },
    /// A response that requests tool uses.
    ToolUse { message_id: Option<String>, content: String, tool_uses: Vec<AssistantToolUse> },
}

/// The text of an assistant message.
pub open spec fn assistant_content(m: AssistantMessage) -> String {
    match m {
        AssistantMessage::Response { content, .. } => content,
        AssistantMessage::ToolUse { content, .. } => content,
    }
}

impl AssistantMessage {
    /// A plain response.
    pub fn new_response(message_id: Option<String>, content: String) -> (m: AssistantMessage)
        ensures
            m == (AssistantMessage::Response { message_id, content }),
    {
        AssistantMessage::Response { message_id, content }
    }

    /// A response that requests tool uses.
    pub fn new_tool_use(message_id: Option<String>, content: String, tool_uses: Vec<AssistantToolUse>) -> (m:
        AssistantMessage)
        ensures
            m == (AssistantMessage::ToolUse { message_id, content, tool_uses }),
    {
        AssistantMessage::ToolUse { message_id, content, tool_uses }
    }

    /// The text of the message.
    pub fn content(&self) -> (r: &String)
        ensures
            *r == assistant_content(*self),
    {
        match self {
            AssistantMessage::Response { content, .. } => content,
            AssistantMessage::ToolUse { content, .. } => content,
        }
    }
}

/// One exchange: a user message and the assistant's reply, either of which may be absent.
#[derive(Clone, Debug)]
pub struct ConversationEntry {
    pub user: Option<UserMessage>,
    pub assistant: Option<AssistantMessage>,
}

/// The entries of a conversation, oldest first.
#[derive(Clone, Debug)]
pub struct ConversationHistory {
    entries: Vec<ConversationEntry>,
}

/// The entries after the user writes `text`: a new entry with no reply yet.
pub open spec fn with_input(h: Seq<ConversationEntry>, m: UserMessage) -> Seq<ConversationEntry> {
    h.push(ConversationEntry { user: Some(m), assistant: None })
}

/// The entries after the assistant replies: the reply completes the last entry when it
/// waits for one, or else starts an entry of its own.
pub open spec fn with_reply(h: Seq<ConversationEntry>, m: AssistantMessage) -> Seq<ConversationEntry> {
    if h.len() > 0 && h.last().assistant is None {
        h.update(h.len() - 1, ConversationEntry { user: h.last().user, assistant: Some(m) })
    } else {
        h.push(ConversationEntry { user: None, assistant: Some(m) })
    }
}

impl View for ConversationHistory {
    type V = Seq<ConversationEntry>;

    closed spec fn view(&self) -> Seq<ConversationEntry> {
        self.entries@
    }
}

impl ConversationHistory {
    /// An empty history.
    pub fn new() -> (h: ConversationHistory)
        ensures
            h@ == Seq::<ConversationEntry>::empty(),
    {
        ConversationHistory { entries: Vec::new() }
    }

    /// Records a prompt from the user.
    pub fn push_input_message(&mut self, text: String)
        ensures
            final(self)@ == with_input(old(self)@, UserMessage { content: UserMessageContent::Prompt { prompt: text }, timestamp: None }),
    {
        let m = UserMessage::new_prompt(text);
        self.entries.push(ConversationEntry { user: Some(m), assistant: None });
    }

    /// Records a reply from the assistant.
    pub fn push_assistant_message(&mut self, message: AssistantMessage)
        ensures
            final(self)@ == with_reply(old(self)@, message),
    {
        let n = self.entries.len();
        if n > 0 && self.entries[n - 1].assistant.is_none() {
            self.entries[n - 1].assistant = Some(message);
            assert(self.entries@ =~= with_reply(old(self)@, message));
        } else {
            self.entries.push(ConversationEntry { user: None, assistant: Some(message) });
        }
    }

    /// The entries, oldest first.
    pub fn get_entries(&self) -> (r: &Vec<ConversationEntry>)
        ensures
            r@ == self@,
    {
        &self.entries
    }

    /// The number of entries.
    pub fn len(&self) -> (n: usize)
        ensures
            n == self@.len(),
    {
        self.entries.len()
    }
}

} // verus!
