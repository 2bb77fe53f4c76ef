//! The agent loop: one round of prompting the model for a worker. The session runs the
//! decisions of each step; the caller performs the model request between them.
use vstd::prelude::*;
use crate::events::{tool_input_of, AgentEnvironmentEvent, AgentLoopEvent, JobEvent, OutputChunk};
use crate::model::ModelResponse;

verus! {

broadcast use vstd::string::group_string_axioms;

/// The input of an agent loop; everything else comes from the worker.
#[derive(Clone, Copy, Debug)]
pub struct AgentLoopInput {}

/// The input of conversation compaction.
#[derive(Clone, Debug)]
pub struct CompactInput {
    pub instruction: Option<String>,
}

/// The completion state an agent loop records for its worker.
pub open spec fn completion_state(response: ModelResponse) -> Seq<char> {
    if response.tool_requests@.len() > 0 {
        "completed_with_tool_request"@
    } else {
        "completed_ready_for_prompt"@
    }
}

/// The events an agent loop publishes for a response: for each tool request an output
/// chunk and a tool use request, then the complete response.
pub open spec fn finish_events(
    evs: Seq<AgentEnvironmentEvent>,
    worker_id: u128,
    job_id: u128,
    response: ModelResponse,
) -> bool {
    let reqs = response.tool_requests@;
    &&& evs.len() == 2 * reqs.len() + 1
    &&& forall|i: int|
        0 <= i < reqs.len() ==> {
            &&& (#[trigger] evs[2 * i]) matches AgentEnvironmentEvent::Job(
                JobEvent::OutputChunk { worker_id: w, job_id: j, chunk: OutputChunk::ToolUse { tool_name, tool_input }, .. },
            ) && w == worker_id && j == job_id && tool_name == reqs[i].tool_name && tool_input == tool_input_of(
                reqs[i].parameters,
            )
            &&& evs[2 * i + 1] matches AgentEnvironmentEvent::AgentLoop(
                AgentLoopEvent::ToolUseRequestReceived { worker_id: w, job_id: j, tool_name, tool_input, .. },
            ) && w == worker_id && j == job_id && tool_name == reqs[i].tool_name && tool_input == tool_input_of(
                reqs[i].parameters,
            )
        }
    &&& evs.last() matches AgentEnvironmentEvent::AgentLoop(
        AgentLoopEvent::ResponseReceived { worker_id: w, job_id: j, text, .. },
    ) && w == worker_id && j == job_id && text == response.content
}

} // verus!
