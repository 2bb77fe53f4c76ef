use chat_cli::agent_loop::AgentLoopInput;
use chat_cli::conversation::{AssistantMessage, ConversationHistory};
use chat_cli::event_bus::EventBus;
use chat_cli::events::{AgentEnvironmentEvent, AgentLoopEvent, JobEvent, OutputChunk, ToolInput};
use chat_cli::model::{ModelResponse, ModelResponseChunk, ToolRequest};
use chat_cli::session::Session;
use chat_cli::worker::WorkerStates;
use chat_cli::worker_builder::{AgentConfig, WorkerBuilder};

fn session_with_prompt(text: &str) -> (Session, u128) {
    let mut s = Session::new(EventBus::default(), 1);
    let id = s.build_worker("test".to_string());
    s.push_input_message(id, text.to_string());
    (s, id)
}

#[test]
fn agent_loop_round_publishes_chunks_and_response() {
    let (mut s, id) = session_with_prompt("Test prompt");
    let job = s.run_task__agent_loop(id, AgentLoopInput {});
    assert!(s.agent_loop_start(id, false).is_ok());
    assert_eq!(s.get_worker(id).unwrap().get_state(), WorkerStates::Working);
    let messages = s.agent_loop_messages(id, false, true).ok().unwrap();
    assert_eq!(messages.len(), 1);
    let request = s.agent_loop_request(id, messages, None, true).ok().unwrap();
    assert_eq!(request.messages[0].content, "Test prompt");
    assert_eq!(s.get_worker(id).unwrap().get_state(), WorkerStates::Requesting);
    s.agent_loop_receiving(id);
    let mut rx = s.event_bus().subscribe();
    s.agent_loop_chunk(id, job.job_id, ModelResponseChunk::AssistantMessage("Hello".to_string()));
    match rx.try_recv() {
        Ok(AgentEnvironmentEvent::Job(JobEvent::OutputChunk { chunk: OutputChunk::AssistantResponse(t), .. })) => {
            assert_eq!(t, "Hello")
        }
        _ => panic!("Should have received output chunks"),
    }
    s.agent_loop_finish(id, job.job_id, ModelResponse { content: "Hello, this is a test response!".to_string(), tool_requests: vec![] });
    match rx.try_recv() {
        Ok(AgentEnvironmentEvent::AgentLoop(AgentLoopEvent::ResponseReceived { text, .. })) => {
            assert!(text.contains("Hello"))
        }
        _ => panic!("Should have received ResponseReceived event"),
    }
    let w = s.get_worker(id).unwrap();
    assert_eq!(w.get_state(), WorkerStates::Inactive);
    assert_eq!(w.get_task_metadata_string("agent_loop.completion_state"), Some("completed_ready_for_prompt".to_string()));
    assert_eq!(w.context_container.conversation_history.len(), 1);
}

#[test]
fn agent_loop_tool_requests_publish_two_events_each() {
    let (mut s, id) = session_with_prompt("Test prompt");
    let job = s.run_task__agent_loop(id, AgentLoopInput {});
    let mut rx = s.event_bus().subscribe();
    s.agent_loop_finish(
        id,
        job.job_id,
        ModelResponse {
            content: "I'll use a tool to help.".to_string(),
            tool_requests: vec![ToolRequest { tool_name: "test_tool".to_string(), parameters: "{\"arg\": \"value\"}".to_string() }],
        },
    );
    match rx.try_recv() {
        Ok(AgentEnvironmentEvent::Job(JobEvent::OutputChunk {
            chunk: OutputChunk::ToolUse { tool_name, tool_input: ToolInput::Json(_) },
            ..
        })) => assert_eq!(tool_name, "test_tool"),
        _ => panic!("Should have received 1 ToolUse OutputChunk"),
    }
    assert!(matches!(
        rx.try_recv(),
        Ok(AgentEnvironmentEvent::AgentLoop(AgentLoopEvent::ToolUseRequestReceived { .. }))
    ));
    assert!(matches!(rx.try_recv(), Ok(AgentEnvironmentEvent::AgentLoop(AgentLoopEvent::ResponseReceived { .. }))));
    assert_eq!(
        s.get_worker(id).unwrap().get_task_metadata_string("agent_loop.completion_state"),
        Some("completed_with_tool_request".to_string())
    );
}

#[test]
fn agent_loop_errors() {
    let (mut s, id) = session_with_prompt("p");
    assert_eq!(s.agent_loop_start(id, true), Err("Cancelled".to_string()));
    assert_eq!(s.agent_loop_messages(id, false, false).err(), Some("Os not available in worker".to_string()));
    let empty = s.build_worker("empty".to_string());
    assert_eq!(
        s.agent_loop_messages(empty, false, true).err(),
        Some("No messages in conversation history".to_string())
    );
    assert_eq!(s.agent_loop_request(id, vec![], None, false).err(), Some("model_provider not available".to_string()));
    assert_eq!(s.agent_loop_failed(id, false, "timeout".to_string()), "timeout");
    let w = s.get_worker(id).unwrap();
    assert_eq!(w.get_state(), WorkerStates::InactiveFailed);
    assert_eq!(w.get_failure(), Some("LLM request failed: timeout".to_string()));
}

#[test]
fn reply_completes_the_prompt_entry() {
    let mut h = ConversationHistory::new();
    h.push_input_message("q".to_string());
    h.push_assistant_message(AssistantMessage::new_response(None, "a".to_string()));
    assert_eq!(h.len(), 1);
    let e = &h.get_entries()[0];
    assert!(e.user.is_some() && e.assistant.is_some());
    h.push_assistant_message(AssistantMessage::new_response(None, "b".to_string()));
    assert_eq!(h.len(), 2);
    assert!(h.get_entries()[1].user.is_none());
}

#[test]
fn test_build_with_initial_input() {
    let mut s = Session::new(EventBus::default(), 1);
    let id = WorkerBuilder::new()
        .initial_input(Some("Hello world".to_string()))
        .build(&mut s, AgentConfig { prompt: None, resources: vec![] });
    let w = s.get_worker(id).unwrap();
    assert_eq!(w.name, "main");
    assert_eq!(w.context_container.conversation_history.len(), 1);
}

#[test]
fn test_build_with_default_agent() {
    let mut s = Session::new(EventBus::default(), 1);
    let id = WorkerBuilder::new().build(
        &mut s,
        AgentConfig {
            prompt: Some("be helpful".to_string()),
            resources: vec!["file://README.md".to_string(), "skill://x".to_string()],
        },
    );
    let w = s.get_worker(id).unwrap();
    assert_eq!(w.context_container.get_agent_prompt(), Some("be helpful".to_string()));
    assert_eq!(w.context_container.get_resource_references(), vec!["file://README.md".to_string()]);
    assert_eq!(w.context_container.conversation_history.len(), 0);
}
