use chat_cli::events::{
    AgentEnvironmentEvent, AgentLoopEvent, JobCompletionResult, JobEvent, SystemEvent, ToolInput,
    UserInteractionRequired, WebUIEvent, WorkerEvent, WorkerLifecycleState,
};
use chat_cli::ids::new_id;
use chat_cli::metadata::TaskMetadata;
use std::time::Instant;

#[test]
fn events_test_worker_id_extraction() {
    let worker_id = new_id();
    let timestamp = Instant::now();

    let event = AgentEnvironmentEvent::Worker(WorkerEvent::Created {
        worker_id,
        name: "test".to_string(),
        timestamp,
    });
    assert_eq!(event.worker_id(), Some(worker_id));

    let event = AgentEnvironmentEvent::Job(JobEvent::Started {
        worker_id,
        job_id: new_id(),
        task_type: "test".to_string(),
        timestamp,
    });
    assert_eq!(event.worker_id(), Some(worker_id));

    let event = AgentEnvironmentEvent::System(SystemEvent::ShutdownInitiated {
        reason: "test".to_string(),
        timestamp,
    });
    assert_eq!(event.worker_id(), None);
}

#[test]
fn test_event_type_checking() {
    let timestamp = Instant::now();

    let event = AgentEnvironmentEvent::Worker(WorkerEvent::Created {
        worker_id: new_id(),
        name: "test".to_string(),
        timestamp,
    });
    assert!(event.is_worker_event());
    assert!(!event.is_job_event());
    assert!(!event.is_agent_loop_event());
    assert!(!event.is_system_event());

    let event = AgentEnvironmentEvent::Job(JobEvent::Started {
        worker_id: new_id(),
        job_id: new_id(),
        task_type: "test".to_string(),
        timestamp,
    });
    assert!(!event.is_worker_event());
    assert!(event.is_job_event());

    let event = AgentEnvironmentEvent::System(SystemEvent::ShutdownInitiated {
        reason: "test".to_string(),
        timestamp,
    });
    assert!(event.is_system_event());
}

#[test]
fn test_timestamp_extraction() {
    let timestamp = Instant::now();

    let event = AgentEnvironmentEvent::Worker(WorkerEvent::Created {
        worker_id: new_id(),
        name: "test".to_string(),
        timestamp,
    });
    assert_eq!(event.timestamp(), timestamp);

    let event = AgentEnvironmentEvent::Job(JobEvent::Completed {
        worker_id: new_id(),
        job_id: new_id(),
        result: JobCompletionResult::Success {
            task_metadata: TaskMetadata::new(),
            user_interaction_required: UserInteractionRequired::NotRequired,
        },
        timestamp,
    });
    assert_eq!(event.timestamp(), timestamp);
}

#[test]
fn test_user_interaction_required_enum() {
    let none = UserInteractionRequired::NotRequired;
    let tool_approval = UserInteractionRequired::ToolApproval;

    assert_eq!(none, UserInteractionRequired::NotRequired);
    assert_eq!(tool_approval, UserInteractionRequired::ToolApproval);
    assert_ne!(none, tool_approval);

    let none_copy = none;
    assert_eq!(none, none_copy);
}

#[test]
fn worker_id_of_every_kind_of_event() {
    let w = new_id();
    let j = new_id();
    let t = Instant::now();
    let with_worker = vec![
        AgentEnvironmentEvent::Worker(WorkerEvent::Deleted { worker_id: w, timestamp: t }),
        AgentEnvironmentEvent::Worker(WorkerEvent::LifecycleStateChanged {
            worker_id: w,
            old_state: WorkerLifecycleState::Idle,
            new_state: WorkerLifecycleState::Busy,
            timestamp: t,
        }),
        AgentEnvironmentEvent::Job(JobEvent::Completed {
            worker_id: w,
            job_id: j,
            result: JobCompletionResult::Cancelled,
            timestamp: t,
        }),
        AgentEnvironmentEvent::AgentLoop(AgentLoopEvent::ResponseReceived {
            worker_id: w,
            job_id: j,
            text: "hi".to_string(),
            timestamp: t,
        }),
        AgentEnvironmentEvent::AgentLoop(AgentLoopEvent::ToolUseRequestReceived {
            worker_id: w,
            job_id: j,
            tool_name: "fs_read".to_string(),
            tool_input: ToolInput::Text("x".to_string()),
            timestamp: t,
        }),
        AgentEnvironmentEvent::WebUI(WebUIEvent::PromptReceived { worker_id: w, text: "p".to_string(), timestamp: t }),
    ];
    for e in with_worker.iter() {
        assert_eq!(e.worker_id(), Some(w));
        assert_eq!(e.timestamp(), t);
    }
    let e = AgentEnvironmentEvent::WebUI(WebUIEvent::WebSocketConnected { timestamp: t });
    assert_eq!(e.worker_id(), None);
    assert!(e.is_webui_event());
    assert!(!e.is_worker_event());
}

#[test]
fn tool_input_reads_json_or_text() {
    match ToolInput::from_parameters(&"{\"arg\": \"value\"}".to_string()) {
        ToolInput::Json(s) => assert_eq!(s, "{\"arg\": \"value\"}"),
        _ => panic!("Expected JSON input"),
    }
    match ToolInput::from_parameters(&"not json {".to_string()) {
        ToolInput::Text(s) => assert_eq!(s, "not json {"),
        _ => panic!("Expected text input"),
    }
}

#[test]
fn lifecycle_state_defaults_to_idle() {
    assert_eq!(WorkerLifecycleState::default(), WorkerLifecycleState::Idle);
}
