//! Workers: a named agent with its context, lifecycle state and task metadata.
use vstd::prelude::*;
use crate::context::ContextContainer;
use crate::conversation::ConversationEntry;
use crate::events::WorkerLifecycleState;
use crate::ids::{is_random_id, new_id};
use crate::metadata::{MetadataValue, TaskMetadata, value_text};

pub mod task_metadata_keys;

verus! {

broadcast use vstd::string::group_string_axioms;

/// Finer-grained execution state of a worker.
#[derive(Clone, Copy, Debug, PartialEq, Eq, Structural)]
pub enum WorkerStates {
    Inactive,
    Working,
    Requesting,
    Receiving,
    Waiting,
    UsingTool,
    InactiveFailed,
}

impl Default for WorkerStates {
    fn default() -> (s: Self)
        ensures
            s == WorkerStates::Inactive,
    {
        WorkerStates::Inactive
    }
}

/// A worker. The session holds each worker alone; a worker is not cloned.
#[derive(Debug)]
pub struct Worker {
    pub id: u128,
    pub name: String,
    pub context_container: ContextContainer,
    /// Lifecycle state, managed by the session.
    pub lifecycle_state: WorkerLifecycleState,
    /// Task-specific metadata, managed by tasks.
    pub task_metadata: TaskMetadata,
    /// Execution state.
    pub state: WorkerStates,
    pub last_failure: Option<String>,
}

/// A worker as it is made: fresh context, idle, no metadata, inactive, no failure.
pub open spec fn is_fresh_worker(w: Worker, name: String) -> bool {
    &&& w.name == name
    &&& w.context_container.conversation_history@ == Seq::<ConversationEntry>::empty()
    &&& w.context_container.agent_prompt is None
    &&& w.context_container.resource_references@ == Seq::<String>::empty()
    &&& w.lifecycle_state == WorkerLifecycleState::Idle
    &&& w.task_metadata@ == Map::<Seq<char>, MetadataValue>::empty()
    &&& w.state == WorkerStates::Inactive
    &&& w.last_failure is None
}

impl Worker {
    /// A new worker with a random identifier.
    pub fn new(name: String) -> (w: Worker)
        ensures
            is_fresh_worker(w, name),
            is_random_id(w.id),
    {
        Worker {
            id: new_id(),
            name,
            context_container: ContextContainer::new(),
            lifecycle_state: WorkerLifecycleState::Idle,
            task_metadata: TaskMetadata::new(),
            state: WorkerStates::Inactive,
            last_failure: None,
        }
    }

    /// Sets the execution state.
    pub fn set_state(&mut self, new_state: WorkerStates)
        ensures
            *final(self) == (Worker { state: new_state, ..*old(self) }),
    {
        self.state = new_state;
    }

    /// The execution state.
    pub fn get_state(&self) -> (s: WorkerStates)
        ensures
            s == self.state,
    {
        self.state
    }

    /// Records the last failure.
    pub fn set_failure(&mut self, error: String)
        ensures
            *final(self) == (Worker { last_failure: Some(error), ..*old(self) }),
    {
        self.last_failure = Some(error);
    }

    /// A copy of the last failure.
    pub fn get_failure(&self) -> (r: Option<String>)
        ensures
            r == self.last_failure,
    {
        match &self.last_failure {
            Some(e) => Some(e.clone()),
            None => None,
        }
    }

    /// Sets a metadata value.
    pub fn set_task_metadata(&mut self, key: &str, value: MetadataValue)
        ensures
            final(self).task_metadata@ == old(self).task_metadata@.insert(key@, value),
            final(self).id == old(self).id,
            final(self).name == old(self).name,
            final(self).context_container == old(self).context_container,
            final(self).lifecycle_state == old(self).lifecycle_state,
            final(self).state == old(self).state,
            final(self).last_failure == old(self).last_failure,
    {
        self.task_metadata.insert(String::from_str(key), value);
    }

    /// A copy of a metadata value.
    pub fn get_task_metadata(&self, key: &str) -> (r: Option<MetadataValue>)
        ensures
            match r {
                Some(v) => self.task_metadata@.contains_key(key@) && self.task_metadata@[key@] == v,
                None => !self.task_metadata@.contains_key(key@),
            },
    {
        self.task_metadata.get(key)
    }

    /// A metadata value that is a string.
    pub fn get_task_metadata_string(&self, key: &str) -> (r: Option<String>)
        ensures
            match r {
                Some(s) => self.task_metadata@.contains_key(key@) && value_text(self.task_metadata@[key@])
                    == Some(s@),
                None => !self.task_metadata@.contains_key(key@) || value_text(self.task_metadata@[key@]) is None,
            },
    {
        self.task_metadata.get_str(key)
    }
}

} // verus!
