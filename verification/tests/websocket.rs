use chat_cli::event_bus::EventBus;
use chat_cli::events::{AgentEnvironmentEvent, JobEvent, WorkerEvent, WorkerLifecycleState};
use chat_cli::ids::id_to_string;
use chat_cli::metadata::MetadataValue;
use chat_cli::session::Session;
use chat_cli::web::events::WebUIEvent;
use chat_cli::web::websocket::{generate_worker_name, handle_command, initial_snapshots, CommandReply, WebSocketCommand};

fn session() -> Session {
    Session::new(EventBus::default(), 1)
}

#[test]
fn test_validate_prompt_empty() {
    let cmd = WebSocketCommand::Prompt { text: "   ".to_string() };
    assert!(cmd.validate().is_err());
}

#[test]
fn test_validate_prompt_valid() {
    let cmd = WebSocketCommand::Prompt { text: "Hello".to_string() };
    assert!(cmd.validate().is_ok());
}

#[test]
fn test_validate_cancel() {
    let cmd = WebSocketCommand::Cancel;
    assert!(cmd.validate().is_ok());
}

#[test]
fn test_validate_ping() {
    let cmd = WebSocketCommand::Ping;
    assert!(cmd.validate().is_ok());
}

#[test]
fn validation_messages() {
    assert_eq!(
        WebSocketCommand::Prompt { text: "\t\n".to_string() }.validate(),
        Err("Prompt text cannot be empty".to_string())
    );
    assert_eq!(
        WebSocketCommand::CreateWorker { name: None, agent: " ".to_string(), working_directory: None }.validate(),
        Err("Agent name cannot be empty".to_string())
    );
    assert_eq!(
        WebSocketCommand::GetConversationHistory { worker_id: "".to_string() }.validate(),
        Err("Worker ID cannot be empty".to_string())
    );
    assert_eq!(WebSocketCommand::GetWorkers.validate(), Ok(()));
}

#[test]
fn prompt_without_main_worker_is_answered_with_error() {
    let mut s = session();
    match handle_command(&mut s, WebSocketCommand::Prompt { text: "hi".to_string() }) {
        Ok(CommandReply::Send(WebUIEvent::Error { command, message, .. })) => {
            assert_eq!(command, "prompt");
            assert_eq!(message, "Worker not found: main");
        }
        _ => panic!("Expected an error answer"),
    }
}

#[test]
fn prompt_to_main_worker_launches_agent_loop() {
    let mut s = session();
    s.build_worker("other".to_string());
    let main = s.build_worker("main".to_string());
    let mut rx = s.event_bus().subscribe();
    match handle_command(&mut s, WebSocketCommand::Prompt { text: "hi".to_string() }) {
        Ok(CommandReply::Launched(t)) => assert_eq!(t.worker_id, main),
        _ => panic!("Expected a launched job"),
    }
    let w = s.get_worker(main).unwrap();
    assert_eq!(w.lifecycle_state, WorkerLifecycleState::Busy);
    assert_eq!(w.context_container.conversation_history.len(), 1);
    assert!(matches!(
        rx.try_recv(),
        Ok(AgentEnvironmentEvent::WebUI(chat_cli::events::WebUIEvent::PromptReceived { worker_id, .. })) if worker_id == main
    ));
    assert!(matches!(
        rx.try_recv(),
        Ok(AgentEnvironmentEvent::Worker(WorkerEvent::LifecycleStateChanged { new_state: WorkerLifecycleState::Busy, .. }))
    ));
    assert!(matches!(rx.try_recv(), Ok(AgentEnvironmentEvent::Job(JobEvent::Started { .. }))));
    assert!(s.has_active_jobs());
}

#[test]
fn blank_prompt_is_refused_without_change() {
    let mut s = session();
    s.build_worker("main".to_string());
    assert!(handle_command(&mut s, WebSocketCommand::Prompt { text: "  ".to_string() }).is_err());
    assert!(!s.has_active_jobs());
}

#[test]
fn cancel_cancels_main_worker_jobs() {
    let mut s = session();
    s.build_worker("main".to_string());
    let job = match handle_command(&mut s, WebSocketCommand::Prompt { text: "go".to_string() }) {
        Ok(CommandReply::Launched(t)) => t,
        _ => panic!("Expected a launched job"),
    };
    assert!(matches!(handle_command(&mut s, WebSocketCommand::Cancel), Ok(CommandReply::Nothing)));
    assert!(job.cancellation_token.token().is_cancelled());
}

#[test]
fn create_worker_generates_name_and_stores_metadata() {
    let mut s = session();
    s.build_worker("coder-1".to_string());
    let cmd = WebSocketCommand::CreateWorker {
        name: None,
        agent: "coder".to_string(),
        working_directory: Some("/tmp".to_string()),
    };
    assert!(matches!(handle_command(&mut s, cmd), Ok(CommandReply::Nothing)));
    let w = &s.get_workers()[1];
    assert_eq!(w.name, "coder-2");
    assert_eq!(w.get_task_metadata_string("agent"), Some("coder".to_string()));
    assert_eq!(w.get_task_metadata_string("working_directory"), Some("/tmp".to_string()));

    let cmd = WebSocketCommand::CreateWorker { name: Some("x".to_string()), agent: "coder".to_string(), working_directory: None };
    assert!(matches!(handle_command(&mut s, cmd), Ok(CommandReply::Nothing)));
    assert_eq!(s.get_workers()[2].name, "x");
    assert!(s.get_workers()[2].get_task_metadata("working_directory").is_none());
    assert!(matches!(s.get_workers()[2].get_task_metadata("agent"), Some(MetadataValue::String(_))));
}

#[test]
fn generated_name_counts_prefix() {
    let mut s = session();
    assert_eq!(generate_worker_name("a", &s), "a-1");
    s.build_worker("ab".to_string());
    s.build_worker("b".to_string());
    s.build_worker("a".to_string());
    assert_eq!(generate_worker_name("a", &s), "a-3");
}

#[test]
fn get_workers_answers_snapshot() {
    let mut s = session();
    let id = s.build_worker("main".to_string());
    match handle_command(&mut s, WebSocketCommand::GetWorkers) {
        Ok(CommandReply::Send(WebUIEvent::WorkersSnapshot { workers, .. })) => {
            assert_eq!(workers.len(), 1);
            assert_eq!(workers[0].id, id_to_string(id));
            assert_eq!(workers[0].agent, "default");
        }
        _ => panic!("Expected a workers snapshot"),
    }
}

#[test]
fn history_request_answers() {
    let mut s = session();
    let id = s.build_worker("main".to_string());
    s.push_input_message(id, "hello".to_string());
    match handle_command(&mut s, WebSocketCommand::GetConversationHistory { worker_id: "nope".to_string() }) {
        Ok(CommandReply::Send(WebUIEvent::Error { command, message, .. })) => {
            assert_eq!(command, "get_conversation_history");
            assert_eq!(message, "Invalid worker ID format");
        }
        _ => panic!("Expected an error answer"),
    }
    let missing = id_to_string(id.wrapping_add(1));
    match handle_command(&mut s, WebSocketCommand::GetConversationHistory { worker_id: missing.clone() }) {
        Ok(CommandReply::Send(WebUIEvent::Error { message, .. })) => {
            assert_eq!(message, format!("Worker not found: {}", missing));
        }
        _ => panic!("Expected an error answer"),
    }
    match handle_command(&mut s, WebSocketCommand::GetConversationHistory { worker_id: id_to_string(id) }) {
        Ok(CommandReply::Send(WebUIEvent::ConversationSnapshot { worker_id, entries, .. })) => {
            assert_eq!(worker_id, id_to_string(id));
            assert_eq!(entries.len(), 1);
        }
        _ => panic!("Expected a conversation snapshot"),
    }
    assert!(matches!(handle_command(&mut s, WebSocketCommand::Ping), Ok(CommandReply::Nothing)));
}

#[test]
fn initial_snapshots_include_main_conversation() {
    let mut s = session();
    assert_eq!(initial_snapshots(&s).len(), 1);
    let id = s.build_worker("main".to_string());
    let events = initial_snapshots(&s);
    assert_eq!(events.len(), 2);
    assert!(matches!(&events[0], WebUIEvent::WorkersSnapshot { workers, .. } if workers.len() == 1));
    assert!(matches!(&events[1], WebUIEvent::ConversationSnapshot { worker_id, .. } if *worker_id == id_to_string(id)));
}

#[test]
fn blank_agent_is_refused_even_without_provider() {
    let mut s = Session::new(EventBus::default(), 0);
    let mut rx = s.event_bus().subscribe();
    let cmd = WebSocketCommand::CreateWorker { name: None, agent: "  ".to_string(), working_directory: None };
    match handle_command(&mut s, cmd) {
        Err(e) => assert_eq!(e, "Agent name cannot be empty"),
        _ => panic!("Expected a refusal"),
    }
    assert_eq!(s.get_workers().len(), 0);
    assert!(rx.try_recv().is_err());
}
