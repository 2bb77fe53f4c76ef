//! Building the main worker from an agent configuration.
use vstd::prelude::*;
use crate::session::{one_more, Session};
use crate::text::{has_prefix, starts_with};
use crate::events::{AgentEnvironmentEvent, WorkerEvent};
use crate::conversation::{ConversationEntry, UserMessage, UserMessageContent};

verus! {

broadcast use vstd::string::group_string_axioms;

/// The platform a worker runs for.
#[derive(Clone, Copy, Debug, PartialEq, Eq, Structural)]
pub enum Platform {
    /// The command line.
    Cli,
}

impl Default for Platform {
    fn default() -> (p: Self)
        ensures
            p == Platform::Cli,
    {
        Platform::Cli
    }
}

/// What the builder reads from an agent configuration.
pub struct AgentConfig {
    pub prompt: Option<String>,
    pub resources: Vec<String>,
}

/// Builds the main worker of a session.
pub struct WorkerBuilder {
    agent_name: Option<String>,
    platform: Platform,
    model: Option<String>,
    initial_input: Option<String>,
}

/// The references that name files.
pub open spec fn file_references(refs: Seq<String>) -> Seq<String> {
    refs.filter(|r: String| has_prefix(r@, "file://"@))
}

impl WorkerBuilder {
    pub closed spec fn agent_name_of(&self) -> Option<String> {
        self.agent_name
    }

    pub closed spec fn platform_of(&self) -> Platform {
        self.platform
    }

    pub closed spec fn model_of(&self) -> Option<String> {
        self.model
    }

    pub closed spec fn initial_input_of(&self) -> Option<String> {
        self.initial_input
    }

    /// A builder for the default agent, on the default platform, with no model and no
    /// initial input.
    pub fn new() -> (b: WorkerBuilder)
        ensures
            b.agent_name_of() is None,
            b.platform_of() == Platform::Cli,
            b.model_of() is None,
            b.initial_input_of() is None,
    {
        WorkerBuilder { agent_name: None, platform: Platform::default(), model: None, initial_input: None }
    }

    /// Uses the named agent.
    pub fn agent(self, agent_name: Option<String>) -> (b: WorkerBuilder)
        ensures
            b.agent_name_of() == agent_name,
            b.platform_of() == self.platform_of(),
            b.model_of() == self.model_of(),
            b.initial_input_of() == self.initial_input_of(),
    {
        WorkerBuilder { agent_name, ..self }
    }

    /// Uses the platform.
    pub fn platform(self, platform: Platform) -> (b: WorkerBuilder)
        ensures
            b.agent_name_of() == self.agent_name_of(),
            b.platform_of() == platform,
            b.model_of() == self.model_of(),
            b.initial_input_of() == self.initial_input_of(),
    {
        WorkerBuilder { platform, ..self }
    }

    /// Uses the model.
    pub fn model(self, model: Option<String>) -> (b: WorkerBuilder)
        ensures
            b.agent_name_of() == self.agent_name_of(),
            b.platform_of() == self.platform_of(),
            b.model_of() == model,
            b.initial_input_of() == self.initial_input_of(),
    {
        WorkerBuilder { model, ..self }
    }

    /// Starts the conversation with an input.
    pub fn initial_input(self, input: Option<String>) -> (b: WorkerBuilder)
        ensures
            b.agent_name_of() == self.agent_name_of(),
            b.platform_of() == self.platform_of(),
            b.model_of() == self.model_of(),
            b.initial_input_of() == input,
    {
        WorkerBuilder { initial_input: input, ..self }
    }

    /// The agent to load, if one is named.
    pub fn agent_name(&self) -> (r: &Option<String>)
        ensures
            *r == self.agent_name_of(),
    {
        &self.agent_name
    }

    /// Builds the worker named `main` for the loaded agent: its prompt, its `file://`
    /// resource references, and the initial input. The session needs a model provider.
    pub fn build(self, session: &mut Session, agent: AgentConfig) -> (id: u128)
        requires
            old(session).providers() > 0,
        ensures
            final(session).workers_view().len() == old(session).workers_view().len() + 1,
            final(session).workers_view().drop_last() == old(session).workers_view(),
            ({
                let w = final(session).workers_view().last();
                &&& w.id == id
                &&& w.name@ == "main"@
                &&& w.context_container.agent_prompt == agent.prompt
                &&& w.context_container.resource_references@ == file_references(agent.resources@)
                &&& w.context_container.conversation_history@ == match self.initial_input_of() {
                    Some(text) => seq![
                        ConversationEntry {
                            user: Some(UserMessage { content: UserMessageContent::Prompt { prompt: text }, timestamp: None }),
                            assistant: None,
                        },
                    ],
                    None => Seq::<ConversationEntry>::empty(),
                }
            }),
            one_more(old(session).published(), final(session).published()),
            final(session).published().last() matches AgentEnvironmentEvent::Worker(
                WorkerEvent::Created { worker_id, name, .. },
            ) && worker_id == id && name@ == "main"@,
            final(session).jobs_view() == old(session).jobs_view(),
    {
        let ghost refs = agent.resources@;
        let mut resources: Vec<String> = Vec::new();
        let mut all = agent.resources;
        let ghost mut k: int = 0;
        proof {
            reveal_strlit("file://");
        }
        while all.len() > 0
            invariant
                0 <= k <= refs.len(),
                all@ == refs.skip(k),
                resources@ == file_references(refs.take(k)),
            decreases all.len(),
        {
            let r = all.remove(0);
            proof {
                assert(refs.take(k + 1).drop_last() =~= refs.take(k));
                assert(refs.take(k + 1).last() == r);
                reveal_with_fuel(Seq::filter, 1);
            }
            if starts_with(r.as_str(), "file://") {
                resources.push(r);
            }
            proof {
                assert(all@ =~= refs.skip(k + 1));
                k = k + 1;
            }
        }
        assert(refs.take(k) =~= refs);
        proof {
            reveal_strlit("main");
        }
        session.build_configured_worker(String::from_str("main"), agent.prompt, resources, self.initial_input)
    }
}

} // verus!
