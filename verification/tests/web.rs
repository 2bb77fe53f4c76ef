use chat_cli::conversation::{AssistantMessage, AssistantToolUse, ConversationHistory};
use chat_cli::event_bus::EventBus;
use chat_cli::events::{
    AgentEnvironmentEvent, JobCompletionResult, JobEvent, OutputChunk, ToolInput, UserInteractionRequired, WorkerEvent,
};
use chat_cli::ids::{id_to_string, new_id};
use chat_cli::metadata::{MetadataValue, TaskMetadata};
use chat_cli::session::Session;
use chat_cli::web::api::{worker_detail, worker_infos};
use chat_cli::web::events::{JobResult, OutputChunkData, Stamp, WebUIEvent, WorkerLifecycleState};
use chat_cli::web::serialization::{convert_conversation_entry, convert_worker_metadata, ConversationEntryJson};
use chat_cli::worker::Worker;
use std::time::Instant;

#[test]
fn test_worker_lifecycle_state_conversion() {
    let idle: WorkerLifecycleState = chat_cli::events::WorkerLifecycleState::Idle.into();
    assert!(matches!(idle, WorkerLifecycleState::Idle));

    let busy: WorkerLifecycleState = chat_cli::events::WorkerLifecycleState::Busy.into();
    assert!(matches!(busy, WorkerLifecycleState::Busy));

    let failed: WorkerLifecycleState = chat_cli::events::WorkerLifecycleState::IdleFailed.into();
    assert!(matches!(failed, WorkerLifecycleState::IdleFailed));
}

#[test]
fn test_worker_created_event_conversion() {
    let worker_id = new_id();
    let timestamp = Instant::now();

    let internal_event = AgentEnvironmentEvent::Worker(WorkerEvent::Created {
        worker_id,
        name: "test-worker".to_string(),
        timestamp,
    });

    let web_event = WebUIEvent::from_agent_event(internal_event);

    match web_event {
        WebUIEvent::WorkerCreated { worker_id: id, name, timestamp: ts } => {
            assert_eq!(id, id_to_string(worker_id));
            assert_eq!(name, "test-worker");
            assert!(matches!(ts, Stamp::At(t) if t == timestamp));
        }
        _ => panic!("Expected WorkerCreated event"),
    }
}

#[test]
fn test_job_started_event_conversion() {
    let worker_id = new_id();
    let job_id = new_id();
    let timestamp = Instant::now();

    let internal_event = AgentEnvironmentEvent::Job(JobEvent::Started {
        worker_id,
        job_id,
        task_type: "agent_loop".to_string(),
        timestamp,
    });

    let web_event = WebUIEvent::from_agent_event(internal_event);

    match web_event {
        WebUIEvent::JobStarted { worker_id: wid, job_id: jid, task_type, .. } => {
            assert_eq!(wid, id_to_string(worker_id));
            assert_eq!(jid, id_to_string(job_id));
            assert_eq!(task_type, "agent_loop");
        }
        _ => panic!("Expected JobStarted event"),
    }
}

#[test]
fn test_output_chunk_conversion() {
    let chunk = OutputChunk::AssistantResponse("Hello!".to_string());
    let data: OutputChunkData = chunk.into();

    match data {
        OutputChunkData::AssistantResponse { text } => {
            assert_eq!(text, "Hello!");
        }
        _ => panic!("Expected AssistantResponse"),
    }
}

#[test]
fn web_events_test_worker_id_extraction() {
    let worker_id = new_id();
    let timestamp = Instant::now();

    let event = WebUIEvent::from_agent_event(AgentEnvironmentEvent::Worker(WorkerEvent::Created {
        worker_id,
        name: "test".to_string(),
        timestamp,
    }));

    assert_eq!(event.worker_id().map(|s| s.as_str()), Some(id_to_string(worker_id).as_str()));

    let event = WebUIEvent::ShutdownInitiated { reason: "test".to_string(), timestamp: Stamp::UnixSeconds(0) };
    assert_eq!(event.worker_id(), None);
}

#[test]
fn job_result_conversion() {
    let r: JobResult = JobCompletionResult::Success {
        task_metadata: TaskMetadata::new(),
        user_interaction_required: UserInteractionRequired::ToolApproval,
    }
    .into();
    assert!(matches!(r, JobResult::Success { task_metadata: None, user_interaction_required: true }));

    let mut meta = TaskMetadata::new();
    meta.insert("k".to_string(), MetadataValue::Bool(true));
    let r: JobResult = JobCompletionResult::Success {
        task_metadata: meta,
        user_interaction_required: UserInteractionRequired::NotRequired,
    }
    .into();
    assert!(matches!(r, JobResult::Success { task_metadata: Some(_), user_interaction_required: false }));

    let r: JobResult = JobCompletionResult::Failed { error: "bad".to_string() }.into();
    assert!(matches!(r, JobResult::Failed { ref error } if error == "bad"));
    let r: JobResult = JobCompletionResult::Cancelled.into();
    assert!(matches!(r, JobResult::Cancelled));
}

#[test]
fn conversation_entry_json_forms() {
    let mut h = ConversationHistory::new();
    h.push_input_message("hi".to_string());
    h.push_assistant_message(AssistantMessage::new_response(None, "hello".to_string()));
    h.push_assistant_message(AssistantMessage::new_tool_use(
        None,
        "".to_string(),
        vec![
            AssistantToolUse { id: "1".to_string(), name: "fs_read".to_string(), args: ToolInput::Text("a".to_string()) },
            AssistantToolUse { id: "2".to_string(), name: "fs_write".to_string(), args: ToolInput::Text("b".to_string()) },
        ],
    ));
    let entries = h.get_entries();
    assert_eq!(entries.len(), 2);
    match convert_conversation_entry(&entries[0]) {
        ConversationEntryJson::UserMessage { content, timestamp } => {
            assert_eq!(content, "hi");
            assert!(matches!(timestamp, Stamp::Now));
        }
        _ => panic!("Expected a user message"),
    }
    match convert_conversation_entry(&entries[1]) {
        ConversationEntryJson::ToolUse { content, tool_uses, .. } => {
            assert_eq!(content, "Using 2 tool(s)");
            assert_eq!(tool_uses.len(), 2);
            assert_eq!(tool_uses[1].tool_name, "fs_write");
        }
        _ => panic!("Expected a tool use entry"),
    }
}

#[test]
fn worker_metadata_names_agent_or_default() {
    let mut w = Worker::new("main".to_string());
    let m = convert_worker_metadata(&w);
    assert_eq!(m.agent, "default");
    assert_eq!(m.id, id_to_string(w.id));
    w.set_task_metadata("agent", MetadataValue::String("coder".to_string()));
    assert_eq!(convert_worker_metadata(&w).agent, "coder");
}

#[test]
fn api_worker_detail_errors() {
    let mut session = Session::new(EventBus::default(), 1);
    let id = session.build_worker("a".to_string());
    let infos = worker_infos(&session);
    assert_eq!(infos.len(), 1);
    assert_eq!(infos[0].worker_id, id_to_string(id));
    assert!(matches!(infos[0].lifecycle_state, WorkerLifecycleState::Idle));

    match worker_detail(&session, "not-a-uuid") {
        Err(e) => {
            assert_eq!(e.status, 400);
            assert_eq!(e.body.error, "Invalid worker ID");
        }
        Ok(_) => panic!("Expected an error"),
    }
    match worker_detail(&session, &id_to_string(id.wrapping_add(1))) {
        Err(e) => {
            assert_eq!(e.status, 404);
            assert_eq!(e.body.error, "Worker not found");
        }
        Ok(_) => panic!("Expected an error"),
    }
    match worker_detail(&session, &id_to_string(id)) {
        Ok(info) => assert_eq!(info.name, "a"),
        Err(_) => panic!("Expected the worker"),
    }
}

#[test]
fn completed_event_keeps_worker_and_time() {
    let w = new_id();
    let j = new_id();
    let t = Instant::now();
    let e = WebUIEvent::from_agent_event(AgentEnvironmentEvent::Job(JobEvent::Completed {
        worker_id: w,
        job_id: j,
        result: JobCompletionResult::Cancelled,
        timestamp: t,
    }));
    assert_eq!(e.worker_id().cloned(), Some(id_to_string(w)));
    match e {
        WebUIEvent::JobCompleted { timestamp, job_id, .. } => {
            assert!(matches!(timestamp, Stamp::At(x) if x == t));
            assert_eq!(job_id, id_to_string(j));
        }
        _ => panic!("Expected JobCompleted"),
    }
}
