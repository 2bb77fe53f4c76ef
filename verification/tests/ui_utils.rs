use chat_cli::conversation::AssistantMessage;
use chat_cli::events::WorkerLifecycleState;
use chat_cli::ui_utils::{calculate_token_usage, estimate_tokens, format_context_info, lifecycle_state_name};
use chat_cli::worker::Worker;

fn create_test_worker() -> Worker {
    Worker::new("test_worker".to_string())
}

#[test]
fn test_estimate_tokens() {
    assert_eq!(estimate_tokens(""), 0);
    assert_eq!(estimate_tokens("test"), 1);
    assert_eq!(estimate_tokens("hello world"), 2);
    assert_eq!(estimate_tokens("a".repeat(100).as_str()), 25);
}

#[test]
fn test_calculate_token_usage_empty() {
    let worker = create_test_worker();
    let usage = calculate_token_usage(&worker);

    assert_eq!(usage.input_tokens, 0);
    assert_eq!(usage.output_tokens, 0);
    assert_eq!(usage.total_tokens, 0);
}

#[test]
fn test_calculate_token_usage_with_messages() {
    let mut worker = create_test_worker();
    {
        let history = &mut worker.context_container.conversation_history;
        history.push_input_message("Hello, how are you?".to_string());
        history.push_assistant_message(AssistantMessage::new_response(None, "I'm doing well, thank you!".to_string()));
    }

    let usage = calculate_token_usage(&worker);

    assert_eq!(usage.input_tokens, 4);
    assert_eq!(usage.output_tokens, 6);
    assert_eq!(usage.total_tokens, 10);
}

#[test]
fn test_format_context_info() {
    let mut worker = create_test_worker();
    worker.context_container.conversation_history.push_input_message("Test message".to_string());

    let info = format_context_info(&worker);

    assert!(info.contains("Worker: test_worker"));
    assert!(info.contains("Messages: 1"));
    assert!(info.contains("State: Idle"));
}

#[test]
fn test_format_context_info_busy_state() {
    let mut worker = create_test_worker();
    worker.lifecycle_state = WorkerLifecycleState::Busy;

    let info = format_context_info(&worker);

    assert!(info.contains("State: Busy"));
}

#[test]
fn context_info_exact_text() {
    let mut worker = create_test_worker();
    for _ in 0..12 {
        worker.context_container.conversation_history.push_input_message("m".to_string());
    }
    worker.lifecycle_state = WorkerLifecycleState::IdleFailed;
    assert_eq!(format_context_info(&worker), "Worker: test_worker\nMessages: 12\nState: IdleFailed");
}

#[test]
fn estimate_counts_utf8_bytes() {
    // Eight bytes in four characters.
    assert_eq!(estimate_tokens("éééé"), 2);
    assert_eq!(estimate_tokens("abc"), 0);
}

#[test]
fn state_names() {
    assert_eq!(lifecycle_state_name(WorkerLifecycleState::Idle), "Idle");
    assert_eq!(lifecycle_state_name(WorkerLifecycleState::Busy), "Busy");
    assert_eq!(lifecycle_state_name(WorkerLifecycleState::IdleFailed), "IdleFailed");
}
