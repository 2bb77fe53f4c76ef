use chat_cli::commands::{AgentEnvironmentCommand, PromptResult};
use chat_cli::environment::{completion_monitor_step, handle_command, run_step, CommandEffect, MonitorStep, RunStep};
use chat_cli::event_bus::EventBus;
use chat_cli::events::{
    AgentEnvironmentEvent, AgentLoopEvent, JobCompletionResult, JobEvent, OutputChunk, SystemEvent, ToolInput,
    UserInteractionRequired, WorkerEvent, WorkerLifecycleState,
};
use chat_cli::ids::{id_to_string, new_id};
use chat_cli::metadata::TaskMetadata;
use chat_cli::session::Session;
use chat_cli::structured_io::{read_input_json, read_structured_input, structured_input, structured_output, InputAction, InputField, InputJson, OutputStyle, StructuredLine};
use chat_cli::ui_utils::{text_ui_input, text_ui_reaction, text_ui_start, PromptStep};
use std::time::Instant;

fn session_with(name: &str) -> (Session, u128) {
    let mut s = Session::new(EventBus::default(), 1);
    let id = s.build_worker(name.to_string());
    (s, id)
}

#[test]
fn structured_output_lines() {
    let w = new_id();
    let t = Instant::now();
    let line = structured_output(&AgentEnvironmentEvent::Worker(WorkerEvent::LifecycleStateChanged {
        worker_id: w,
        old_state: WorkerLifecycleState::Busy,
        new_state: WorkerLifecycleState::IdleFailed,
        timestamp: t,
    }))
    .unwrap();
    match &line {
        StructuredLine::LifecycleState { worker_id, lifecycle_state } => {
            assert_eq!(*worker_id, w);
            assert_eq!(lifecycle_state, "idle_failed");
        }
        _ => panic!("Expected a lifecycle line"),
    }
    assert_eq!(line.style(), OutputStyle::Dimmed);

    let line = structured_output(&AgentEnvironmentEvent::Job(JobEvent::Completed {
        worker_id: w,
        job_id: w,
        result: JobCompletionResult::Failed { error: "x".to_string() },
        timestamp: t,
    }))
    .unwrap();
    assert!(matches!(&line, StructuredLine::JobCompleted { result, .. } if result == "failed"));
    assert_eq!(line.style(), OutputStyle::Red);

    let line = structured_output(&AgentEnvironmentEvent::AgentLoop(AgentLoopEvent::ResponseReceived {
        worker_id: w,
        job_id: w,
        text: "Test response".to_string(),
        timestamp: t,
    }))
    .unwrap();
    assert!(matches!(&line, StructuredLine::AssistantResponse { text, .. } if text == "Test response"));
    assert_eq!(line.style(), OutputStyle::Plain);

    assert!(structured_output(&AgentEnvironmentEvent::Job(JobEvent::OutputChunk {
        worker_id: w,
        job_id: w,
        chunk: OutputChunk::AssistantResponse("x".to_string()),
        timestamp: t,
    }))
    .is_none());
    assert!(structured_output(&AgentEnvironmentEvent::System(SystemEvent::ShutdownInitiated {
        reason: "bye".to_string(),
        timestamp: t,
    }))
    .is_none());
}

fn no_json() -> Option<InputJson> {
    None
}

#[test]
fn structured_input_reads_lines() {
    let (s, main) = session_with("main");
    assert!(matches!(structured_input(&s, "   ", no_json()), InputAction::Skip));
    match structured_input(&s, "  hello  ", no_json()) {
        InputAction::Send(PromptResult::Command(AgentEnvironmentCommand::Prompt { worker_id, text })) => {
            assert_eq!(worker_id, main);
            assert_eq!(text, "hello");
        }
        _ => panic!("Expected a prompt"),
    }
    let quit = InputJson {
        command: InputField::Text("quit".to_string()),
        worker_id: InputField::Missing,
        text: InputField::Missing,
        prompt: InputField::Missing,
    };
    assert!(matches!(structured_input(&s, "{\"command\":\"quit\"}", Some(quit)), InputAction::Quit));
    let other = new_id();
    let prompt = InputJson {
        command: InputField::Text("prompt".to_string()),
        worker_id: InputField::Text(id_to_string(other)),
        text: InputField::Text("hi".to_string()),
        prompt: InputField::Missing,
    };
    match structured_input(&s, "{...}", Some(prompt)) {
        InputAction::Send(PromptResult::Command(AgentEnvironmentCommand::Prompt { worker_id, text })) => {
            assert_eq!(worker_id, other);
            assert_eq!(text, "hi");
        }
        _ => panic!("Expected a prompt"),
    }
    let fallback = InputJson {
        command: InputField::Missing,
        worker_id: InputField::NotText,
        text: InputField::Missing,
        prompt: InputField::Text("from prompt".to_string()),
    };
    match structured_input(&s, "{\"prompt\":\"from prompt\"}", Some(fallback)) {
        InputAction::Send(PromptResult::Command(AgentEnvironmentCommand::Prompt { worker_id, text })) => {
            assert_eq!(worker_id, main);
            assert_eq!(text, "from prompt");
        }
        _ => panic!("Expected a prompt"),
    }
    let empty = Session::new(EventBus::default(), 1);
    assert!(matches!(structured_input(&empty, "hello", no_json()), InputAction::Skip));
}

#[test]
fn text_ui_reacts_to_own_worker_only() {
    let main = new_id();
    let other = new_id();
    let t = Instant::now();
    let r = text_ui_reaction(main, &AgentEnvironmentEvent::Job(JobEvent::OutputChunk {
        worker_id: other,
        job_id: other,
        chunk: OutputChunk::AssistantResponse("no".to_string()),
        timestamp: t,
    }));
    assert_eq!(r.output, None);
    assert!(!r.prompt_ready);
    let r = text_ui_reaction(main, &AgentEnvironmentEvent::Job(JobEvent::OutputChunk {
        worker_id: main,
        job_id: main,
        chunk: OutputChunk::ToolUse { tool_name: "test_tool".to_string(), tool_input: ToolInput::Text("".to_string()) },
        timestamp: t,
    }));
    assert_eq!(r.output, Some("\n[Using tool: test_tool]\n".to_string()));
    let r = text_ui_reaction(main, &AgentEnvironmentEvent::Worker(WorkerEvent::LifecycleStateChanged {
        worker_id: main,
        old_state: WorkerLifecycleState::Busy,
        new_state: WorkerLifecycleState::IdleFailed,
        timestamp: t,
    }));
    assert_eq!(r.output, Some("\n[Task failed]\n".to_string()));
    assert!(r.prompt_ready);
}

#[test]
fn text_ui_start_and_input() {
    let (s, main) = session_with("test");
    assert_eq!(text_ui_start(&s, main), Ok(true));
    assert_eq!(text_ui_start(&s, main.wrapping_add(1)), Err("Worker not found".to_string()));
    match text_ui_input(&s, main, "/status") {
        PromptStep::Show { output } => assert_eq!(output, "Worker status: Idle\n"),
        _ => panic!("Expected output"),
    }
    match text_ui_input(&s, main, "/usage") {
        PromptStep::Show { output } => assert_eq!(output, "Token usage:\n  Input:  0\n  Output: 0\n  Total:  0\n"),
        _ => panic!("Expected output"),
    }
    match text_ui_input(&s, main, "/bogus") {
        PromptStep::Rejected { message } => assert_eq!(message, "Error parsing command: Unknown command: bogus"),
        _ => panic!("Expected a rejection"),
    }
    match text_ui_input(&s, main, "hello") {
        PromptStep::Send(PromptResult::Command(AgentEnvironmentCommand::Prompt { worker_id, text })) => {
            assert_eq!(worker_id, main);
            assert_eq!(text, "hello");
        }
        _ => panic!("Expected a prompt"),
    }
}

#[test]
fn environment_commands() {
    let (mut s, main) = session_with("main");
    match handle_command(&mut s, AgentEnvironmentCommand::Prompt { worker_id: main, text: "go".to_string() }) {
        Ok(CommandEffect::Launched(t)) => assert_eq!(t.worker_id, main),
        _ => panic!("Expected a launch"),
    }
    assert_eq!(s.get_worker(main).unwrap().lifecycle_state, WorkerLifecycleState::Busy);
    let missing = main.wrapping_add(1);
    match handle_command(&mut s, AgentEnvironmentCommand::Prompt { worker_id: missing, text: "go".to_string() }) {
        Err(e) => assert_eq!(e, format!("Worker not found: {}", id_to_string(missing))),
        _ => panic!("Expected an error"),
    }
    assert!(matches!(handle_command(&mut s, AgentEnvironmentCommand::Quit), Ok(CommandEffect::Shutdown)));
    assert!(matches!(run_step(&mut s, PromptResult::Shutdown), RunStep::Stop { notify_shutdown: false }));
    assert!(matches!(
        run_step(&mut s, PromptResult::Command(AgentEnvironmentCommand::Quit)),
        RunStep::Stop { notify_shutdown: true }
    ));
    assert!(matches!(
        run_step(&mut s, PromptResult::Command(AgentEnvironmentCommand::Compact { worker_id: missing, instruction: None })),
        RunStep::Continue { launched: None, error: Some(_) }
    ));
}

#[test]
fn completion_monitor_messages() {
    let t = Instant::now();
    let done = |result: JobCompletionResult| AgentEnvironmentEvent::Job(JobEvent::Completed {
        worker_id: 1,
        job_id: 2,
        result,
        timestamp: t,
    });
    assert!(matches!(completion_monitor_step(&done(JobCompletionResult::Cancelled), true), MonitorStep::Ignore));
    match completion_monitor_step(&done(JobCompletionResult::Failed { error: "boom".to_string() }), false) {
        MonitorStep::Shutdown(Some(m)) => assert_eq!(m, "Error: Job failed: boom"),
        _ => panic!("Expected shutdown with message"),
    }
    match completion_monitor_step(&done(JobCompletionResult::Cancelled), false) {
        MonitorStep::Shutdown(Some(m)) => assert_eq!(m, "Warning: Job was cancelled"),
        _ => panic!("Expected shutdown with message"),
    }
    let ok = JobCompletionResult::Success {
        task_metadata: TaskMetadata::new(),
        user_interaction_required: UserInteractionRequired::NotRequired,
    };
    assert!(matches!(completion_monitor_step(&done(ok), false), MonitorStep::Shutdown(None)));
    let pending = JobCompletionResult::Success {
        task_metadata: TaskMetadata::new(),
        user_interaction_required: UserInteractionRequired::ToolApproval,
    };
    match completion_monitor_step(&done(pending), false) {
        MonitorStep::Shutdown(Some(m)) => {
            assert_eq!(m, "Warning: Job completed with pending tool approval (non-clean exit)")
        }
        _ => panic!("Expected shutdown with message"),
    }
    let other = AgentEnvironmentEvent::System(SystemEvent::ShutdownInitiated { reason: "x".to_string(), timestamp: t });
    assert!(matches!(completion_monitor_step(&other, false), MonitorStep::Ignore));
}

#[test]
fn structured_lines_read_as_json_or_text() {
    let (s, main) = session_with("main");
    assert!(read_input_json("not json").is_none());
    let j = read_input_json("{\"command\": \"prompt\", \"worker_id\": 7, \"text\": \"hi\"}").unwrap();
    assert!(matches!(j.command, InputField::Text(ref c) if c == "prompt"));
    assert!(matches!(j.worker_id, InputField::NotText));
    assert!(matches!(j.text, InputField::Text(ref t) if t == "hi"));
    assert!(matches!(j.prompt, InputField::Missing));
    assert!(matches!(read_structured_input(&s, "  {\"command\":\"quit\"}  "), InputAction::Quit));
    match read_structured_input(&s, "{\"prompt\": \"from json\"}") {
        InputAction::Send(PromptResult::Command(AgentEnvironmentCommand::Prompt { worker_id, text })) => {
            assert_eq!(worker_id, main);
            assert_eq!(text, "from json");
        }
        _ => panic!("Expected a prompt"),
    }
    match read_structured_input(&s, "[1, 2]") {
        InputAction::Send(PromptResult::Command(AgentEnvironmentCommand::Prompt { text, .. })) => {
            assert_eq!(text, "[1, 2]")
        }
        _ => panic!("Expected a prompt"),
    }
}
