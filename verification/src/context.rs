//! What a worker knows: its conversation, its agent prompt and the resources it refers
//! to; and how a model request is built from it.
use vstd::prelude::*;
use crate::conversation::{assistant_content, user_prompt, ConversationEntry, ConversationHistory};
use crate::model::{ConversationMessage, MessageRole, ModelRequest};
use crate::text::{chars_of, find_char, first_index_of, has_prefix, owned, starts_with};
use crate::commands::opt_view;

verus! {

broadcast use vstd::string::group_string_axioms;

/// All contextual information of a worker. A worker holds its container alone; the
/// container is not cloned.
#[derive(Debug)]
pub struct ContextContainer {
    pub conversation_history: ConversationHistory,
    pub agent_prompt: Option<String>,
    /// Resource references (`file://` URLs) loaded when a model request is built.
    pub resource_references: Vec<String>,
}

impl ContextContainer {
    /// An empty context: no history, no prompt, no resources.
    pub fn new() -> (c: ContextContainer)
        ensures
            c.conversation_history@ == Seq::<ConversationEntry>::empty(),
            c.agent_prompt is None,
            c.resource_references@ == Seq::<String>::empty(),
    {
        ContextContainer {
            conversation_history: ConversationHistory::new(),
            agent_prompt: None,
            resource_references: Vec::new(),
        }
    }

    /// Sets the agent prompt.
    pub fn set_agent_prompt(&mut self, prompt: String)
        ensures
            final(self).agent_prompt == Some(prompt),
            final(self).conversation_history == old(self).conversation_history,
            final(self).resource_references == old(self).resource_references,
    {
        self.agent_prompt = Some(prompt);
    }

    /// A copy of the agent prompt.
    pub fn get_agent_prompt(&self) -> (r: Option<String>)
        ensures
            r == self.agent_prompt,
    {
        match &self.agent_prompt {
            Some(p) => Some(p.clone()),
            None => None,
        }
    }

    /// Sets the resource references.
    pub fn set_resource_references(&mut self, references: Vec<String>)
        ensures
            final(self).resource_references == references,
            final(self).conversation_history == old(self).conversation_history,
            final(self).agent_prompt == old(self).agent_prompt,
    {
        self.resource_references = references;
    }

    /// A copy of the resource references.
    pub fn get_resource_references(&self) -> (r: Vec<String>)
        ensures
            r@ == self.resource_references@,
    {
        let mut r: Vec<String> = Vec::new();
        let mut i: usize = 0;
        while i < self.resource_references.len()
            invariant
                i <= self.resource_references@.len(),
                r@ == self.resource_references@.take(i as int),
            decreases self.resource_references.len() - i,
        {
            r.push(self.resource_references[i].clone());
            assert(self.resource_references@.take(i + 1) =~= self.resource_references@.take(i as int).push(
                self.resource_references@[i as int],
            ));
            i = i + 1;
        }
        assert(self.resource_references@.take(i as int) =~= self.resource_references@);
        r
    }
}

impl Default for ContextContainer {
    fn default() -> (c: Self)
        ensures
            c.conversation_history@ == Seq::<ConversationEntry>::empty(),
            c.agent_prompt is None,
            c.resource_references@ == Seq::<String>::empty(),
    {
        ContextContainer::new()
    }
}

/// The messages that one conversation entry contributes: the user's text, then the
/// assistant's reply, each when present.
pub open spec fn entry_messages(e: ConversationEntry) -> Seq<(MessageRole, Seq<char>)> {
    let u: Seq<(MessageRole, Seq<char>)> = match e.user {
        Some(m) => seq![
            (
                MessageRole::User,
                match user_prompt(m) {
                    Some(p) => p,
                    None => Seq::<char>::empty(),
                },
            ),
        ],
        None => Seq::empty(),
    };
    let a: Seq<(MessageRole, Seq<char>)> = match e.assistant {
        Some(m) => seq![(MessageRole::Assistant, assistant_content(m)@)],
        None => Seq::empty(),
    };
    u + a
}

/// The messages of a whole conversation, oldest first.
pub open spec fn history_messages(h: Seq<ConversationEntry>) -> Seq<(MessageRole, Seq<char>)>
    decreases h.len(),
{
    if h.len() == 0 {
        Seq::empty()
    } else {
        history_messages(h.drop_last()) + entry_messages(h.last())
    }
}

/// The views of a list of messages.
pub open spec fn messages_view(v: Seq<ConversationMessage>) -> Seq<(MessageRole, Seq<char>)> {
    v.map_values(|m: ConversationMessage| m@)
}

/// Why a model request cannot be built.
#[derive(Clone, Copy, Debug, PartialEq, Eq, Structural)]
pub enum ContextError {
    /// The conversation has no entry.
    EmptyHistory,
}

impl ContextError {
    /// The message of the error.
    pub fn message(&self) -> (s: String)
        ensures
            s@ == "No messages in conversation history"@,
    {
        owned("No messages in conversation history")
    }
}

/// Where a resource reference points: a glob pattern or a single file.
#[derive(Clone, Debug)]
pub enum ResourceTarget {
    Glob(String),
    File(String),
}

/// The mathematical form of a resource target: whether it is a pattern, and its path.
pub open spec fn target_view(t: ResourceTarget) -> (bool, Seq<char>) {
    match t {
        ResourceTarget::Glob(p) => (true, p@),
        ResourceTarget::File(p) => (false, p@),
    }
}

/// The targets of a list of references: each `file://` reference, without its scheme,
/// as a pattern when it holds `*`; other references are skipped.
pub open spec fn resource_plan(refs: Seq<Seq<char>>) -> Seq<(bool, Seq<char>)>
    decreases refs.len(),
{
    if refs.len() == 0 {
        Seq::empty()
    } else {
        let r = refs.last();
        let rest = resource_plan(refs.drop_last());
        if has_prefix(r, "file://"@) {
            let path = r.skip(7);
            rest.push((first_index_of(path, '*', 0) < path.len(), path))
        } else {
            rest
        }
    }
}

/// The text that one loaded file adds to the request context.
pub open spec fn resource_section(path: Seq<char>, content: Seq<char>) -> Seq<char> {
    "\n--- "@ + path + " ---\n"@ + content + "\n"@
}

/// The form of a loaded file as `join_resources` reads it: the path shown, and the text
/// when the file could be read.
pub open spec fn loaded_view(f: (String, Option<String>)) -> (Seq<char>, Option<Seq<char>>) {
    (f.0@, opt_view(f.1))
}

/// The text that the loaded files add to the request context, in order; a file that could
/// not be read adds nothing.
pub open spec fn joined_resources(loaded: Seq<(Seq<char>, Option<Seq<char>>)>) -> Seq<char>
    decreases loaded.len(),
{
    if loaded.len() == 0 {
        Seq::empty()
    } else {
        joined_resources(loaded.drop_last()) + match loaded.last().1 {
            Some(c) => resource_section(loaded.last().0, c),
            None => Seq::empty(),
        }
    }
}

/// Builds model requests from a worker's context.
pub struct ContextBuilder;

impl ContextBuilder {
    /// The messages of the conversation, or an error when it has no entry.
    pub fn build_messages(context_container: &ContextContainer) -> (r: Result<
        Vec<ConversationMessage>,
        ContextError,
    >)
        ensures
            match r {
                Ok(v) => context_container.conversation_history@.len() > 0 && messages_view(v@)
                    == history_messages(context_container.conversation_history@),
                Err(e) => context_container.conversation_history@.len() == 0 && e
                    == ContextError::EmptyHistory,
            },
    {
        let entries = context_container.conversation_history.get_entries();
        if entries.len() == 0 {
            return Err(ContextError::EmptyHistory);
        }
        let ghost h = context_container.conversation_history@;
        let mut messages: Vec<ConversationMessage> = Vec::new();
        let mut i: usize = 0;
        while i < entries.len()
            invariant
                i <= entries@.len(),
                entries@ == h,
                messages_view(messages@) == history_messages(h.take(i as int)),
            decreases entries.len() - i,
        {
            let ghost before = messages@;
            let entry = &entries[i];
            let ghost mid: Seq<ConversationMessage>;
            match &entry.user {
                Some(user_msg) => {
                    messages.push(ConversationMessage { role: MessageRole::User, content: user_msg.content_with_context() });
                },
                None => {},
            }
            proof { mid = messages@; }
            match &entry.assistant {
                Some(assistant_msg) => {
                    let content = assistant_msg.content().clone();
                    messages.push(ConversationMessage { role: MessageRole::Assistant, content });
                },
                None => {},
            }
            proof {
                assert(h.take(i + 1).drop_last() =~= h.take(i as int));
                assert(messages_view(messages@) =~= messages_view(before) + entry_messages(h[i as int]));
            }
            i = i + 1;
        }
        assert(h.take(i as int) =~= h);
        Ok(messages)
    }

    /// The request for a worker: its messages, its agent prompt as system prompt, and the
    /// loaded resources as context.
    pub fn build_request(context_container: &ContextContainer, context: Option<String>) -> (r: Result<
        ModelRequest,
        ContextError,
    >)
        ensures
            match r {
                Ok(req) => {
                    &&& context_container.conversation_history@.len() > 0
                    &&& messages_view(req.messages@) == history_messages(context_container.conversation_history@)
                    &&& req.system_prompt == context_container.agent_prompt
                    &&& req.context == context
                    &&& req.conversation_id is None
                },
                Err(e) => context_container.conversation_history@.len() == 0 && e == ContextError::EmptyHistory,
            },
    {
        let messages = match Self::build_messages(context_container) {
            Ok(m) => m,
            Err(e) => return Err(e),
        };
        let system_prompt = context_container.get_agent_prompt();
        Ok(ModelRequest { messages, system_prompt, context, conversation_id: None })
    }

    /// The files and patterns that the resource references name.
    pub fn resource_targets(references: &Vec<String>) -> (r: Vec<ResourceTarget>)
        ensures
            r@.map_values(|t: ResourceTarget| target_view(t)) == resource_plan(
                references@.map_values(|s: String| s@),
            ),
    {
        let ghost refs = references@.map_values(|s: String| s@);
        let mut out: Vec<ResourceTarget> = Vec::new();
        let mut i: usize = 0;
        while i < references.len()
            invariant
                i <= references@.len(),
                refs == references@.map_values(|s: String| s@),
                out@.map_values(|t: ResourceTarget| target_view(t)) == resource_plan(refs.take(i as int)),
            decreases references.len() - i,
        {
            let r = references[i].as_str();
            proof {
                assert(refs.take(i + 1).drop_last() =~= refs.take(i as int));
                assert(refs.take(i + 1).last() == r@);
                reveal_strlit("file://");
            }
            if starts_with(r, "file://") {
                let rv = chars_of(r);
                let path = r.substring_char(7, rv.len());
                let pv = chars_of(path);
                let k = find_char(&pv, '*');
                assert(path@ =~= r@.skip(7));
                let t = if k < pv.len() {
                    ResourceTarget::Glob(owned(path))
                } else {
                    ResourceTarget::File(owned(path))
                };
                out.push(t);
                assert(out@.map_values(|t: ResourceTarget| target_view(t)) =~= resource_plan(refs.take(i + 1)));
            } else {
                assert(out@.map_values(|t: ResourceTarget| target_view(t)) =~= resource_plan(refs.take(i + 1)));
            }
            i = i + 1;
        }
        assert(refs.take(i as int) =~= refs);
        out
    }

    /// Adds a loaded file to the context text under a header naming its path.
    pub fn append_resource(content: &mut String, path: &str, file_content: &str)
        ensures
            final(content)@ == old(content)@ + resource_section(path@, file_content@),
    {
        content.append("\n--- ");
        content.append(path);
        content.append(" ---\n");
        content.append(file_content);
        content.append("\n");
        proof {
            reveal_strlit("\n--- ");
            reveal_strlit(" ---\n");
            reveal_strlit("\n");
        }
        assert(content@ =~= old(content)@ + resource_section(path@, file_content@));
    }

    /// The request context of the files named by the resource references, given each file
    /// in order with its text when it could be read: the section of each file read, joined,
    /// or nothing when no text was loaded.
    pub fn join_resources(loaded: &Vec<(String, Option<String>)>) -> (r: Option<String>)
        ensures
            ({
                let j = joined_resources(loaded@.map_values(|f: (String, Option<String>)| loaded_view(f)));
                match r {
                    Some(s) => s@ == j && j.len() > 0,
                    None => j.len() == 0,
                }
            }),
    {
        let ghost files = loaded@.map_values(|f: (String, Option<String>)| loaded_view(f));
        let mut content = String::new();
        let mut i: usize = 0;
        while i < loaded.len()
            invariant
                i <= loaded@.len(),
                files == loaded@.map_values(|f: (String, Option<String>)| loaded_view(f)),
                content@ == joined_resources(files.take(i as int)),
            decreases loaded.len() - i,
        {
            proof {
                assert(files.take(i + 1).drop_last() =~= files.take(i as int));
                assert(files.take(i + 1).last() == loaded_view(loaded@[i as int]));
            }
            match &loaded[i].1 {
                Some(c) => Self::append_resource(&mut content, loaded[i].0.as_str(), c.as_str()),
                None => {},
            }
            i = i + 1;
            assert(content@ =~= joined_resources(files.take(i as int)));
        }
        assert(files.take(i as int) =~= files);
        Self::resources_context(content)
    }

    /// The request context of the loaded resources: nothing when no text was loaded.
    pub fn resources_context(content: String) -> (r: Option<String>)
        ensures
            content@.len() == 0 ==> r is None,
            content@.len() > 0 ==> r == Some(content),
    {
        if content.as_str().unicode_len() == 0 {
            None
        } else {
            Some(content)
        }
    }
}

} // verus!
