//! Requests to a language model and its streamed responses.
use vstd::prelude::*;
use crate::ids::{hyphenated, is_random_id, id_to_string, new_id, parsed_id};

verus! {

broadcast use vstd::string::group_string_axioms;

/// Who wrote a message.
#[derive(Clone, Copy, Debug, PartialEq, Eq, Structural)]
pub enum MessageRole {
    User,
    Assistant,
}

/// A message sent to the model.
#[derive(Clone, Debug)]
pub struct ConversationMessage {
    pub role: MessageRole,
    pub content: String,
}

impl View for ConversationMessage {
    type V = (MessageRole, Seq<char>);

    open spec fn view(&self) -> (MessageRole, Seq<char>) {
        (self.role, self.content@)
    }
}

/// A request to the model.
#[derive(Clone, Debug)]
pub struct ModelRequest {
    pub messages: Vec<ConversationMessage>,
    pub system_prompt: Option<String>,
    pub context: Option<String>,
    pub conversation_id: Option<String>,
}

/// A piece of a streamed response.
#[derive(Clone, Debug)]
pub enum ModelResponseChunk {
    AssistantMessage(String),
    ToolUseRequest { tool_name: String, parameters: String },
}

/// A tool use requested by the model.
#[derive(Clone, Debug)]
pub struct ToolRequest {
    pub tool_name: String,
    pub parameters: String,
}

/// The complete response of the model.
#[derive(Clone, Debug)]
pub struct ModelResponse {
    pub content: String,
    pub tool_requests: Vec<ToolRequest>,
}

/// Gathers a streamed response: the assistant's text and the tool uses, in order.
pub struct ResponseAccumulator {
    pub content: String,
    pub tool_requests: Vec<ToolRequest>,
}

impl ResponseAccumulator {
    /// Nothing received yet.
    pub fn new() -> (a: ResponseAccumulator)
        ensures
            a.content@ == Seq::<char>::empty(),
            a.tool_requests@ == Seq::<ToolRequest>::empty(),
    {
        ResponseAccumulator { content: String::new(), tool_requests: Vec::new() }
    }

    /// A piece of the assistant's text arrived: it is appended, and handed on as a chunk.
    pub fn on_assistant_text(&mut self, text: String) -> (chunk: ModelResponseChunk)
        ensures
            final(self).content@ == old(self).content@ + text@,
            final(self).tool_requests == old(self).tool_requests,
            chunk == ModelResponseChunk::AssistantMessage(text),
    {
        self.content.append(text.as_str());
        ModelResponseChunk::AssistantMessage(text)
    }

    /// A tool use arrived; one with input is recorded and handed on, one without is
    /// ignored.
    pub fn on_tool_use(&mut self, tool_name: String, input: Option<String>) -> (chunk: Option<
        ModelResponseChunk,
    >)
        ensures
            final(self).content == old(self).content,
            match input {
                Some(parameters) => {
                    &&& final(self).tool_requests@ == old(self).tool_requests@.push(
                        ToolRequest { tool_name, parameters },
                    )
                    &&& chunk == Some(ModelResponseChunk::ToolUseRequest { tool_name, parameters })
                },
                None => final(self).tool_requests == old(self).tool_requests && chunk is None,
            },
    {
        match input {
            Some(parameters) => {
                self.tool_requests.push(
                    ToolRequest { tool_name: tool_name.clone(), parameters: parameters.clone() },
                );
                Some(ModelResponseChunk::ToolUseRequest { tool_name, parameters })
            },
            None => None,
        }
    }

    /// The complete response.
    pub fn finish(self) -> (r: ModelResponse)
        ensures
            r.content == self.content,
            r.tool_requests == self.tool_requests,
    {
        ModelResponse { content: self.content, tool_requests: self.tool_requests }
    }
}

/// The conversation identifier to send: the requested one, or else the text of a fresh
/// random identifier, which parses back as that identifier.
pub fn conversation_id_for(requested: Option<String>) -> (id: String)
    ensures
        match requested {
            Some(r) => id == r,
            None => exists|u: u128| is_random_id(u) && id@ == hyphenated(u) && parsed_id(id@) == Some(u),
        },
{
    match requested {
        Some(r) => r,
        None => {
            let u = new_id();
            id_to_string(u)
        },
    }
}

} // verus!
