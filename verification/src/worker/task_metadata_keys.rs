//! Namespaced metadata keys, so that tasks do not clash.
use vstd::prelude::*;

verus! {

/// How the last agent loop completed.
pub const AGENT_LOOP_COMPLETION_STATE: &'static str = "agent_loop.completion_state";

/// The last tool the agent loop used.
pub const AGENT_LOOP_LAST_TOOL: &'static str = "agent_loop.last_tool";

/// When conversation compaction last ran.
pub const COMPACT_LAST_RUN: &'static str = "compact.last_run_timestamp";

} // verus!
