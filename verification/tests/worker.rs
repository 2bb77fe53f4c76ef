use chat_cli::events::WorkerLifecycleState;
use chat_cli::metadata::{MetadataValue, TaskMetadata};
use chat_cli::worker::task_metadata_keys;
use chat_cli::worker::{Worker, WorkerStates};

fn create_test_worker() -> Worker {
    Worker::new("test_worker".to_string())
}

#[test]
fn test_task_metadata_operations() {
    let mut worker = create_test_worker();

    worker.set_task_metadata("string_key", MetadataValue::String("string_value".to_string()));
    worker.set_task_metadata("number_key", MetadataValue::Number(42));
    worker.set_task_metadata("bool_key", MetadataValue::Bool(true));

    assert!(matches!(
        worker.get_task_metadata("string_key"),
        Some(MetadataValue::String(ref s)) if s == "string_value"
    ));
    assert!(matches!(worker.get_task_metadata("number_key"), Some(MetadataValue::Number(42))));

    assert_eq!(worker.get_task_metadata_string("string_key"), Some("string_value".to_string()));

    assert_eq!(worker.get_task_metadata_string("number_key"), None);

    assert!(worker.get_task_metadata("nonexistent").is_none());
    assert_eq!(worker.get_task_metadata_string("nonexistent"), None);
}

#[test]
fn test_task_metadata_keys_constants() {
    assert_eq!(task_metadata_keys::AGENT_LOOP_COMPLETION_STATE, "agent_loop.completion_state");
    assert_eq!(task_metadata_keys::AGENT_LOOP_LAST_TOOL, "agent_loop.last_tool");
    assert_eq!(task_metadata_keys::COMPACT_LAST_RUN, "compact.last_run_timestamp");
}

#[test]
fn new_worker_is_fresh() {
    let worker = create_test_worker();
    assert_eq!(worker.name, "test_worker");
    assert_eq!(worker.lifecycle_state, WorkerLifecycleState::Idle);
    assert_eq!(worker.get_state(), WorkerStates::Inactive);
    assert_eq!(worker.get_failure(), None);
    assert!(worker.task_metadata.is_empty());
    assert_eq!(worker.context_container.conversation_history.len(), 0);
    assert_ne!(worker.id, Worker::new("test_worker".to_string()).id);
}

#[test]
fn worker_state_and_failure_round_trip() {
    let mut worker = create_test_worker();
    worker.set_state(WorkerStates::Receiving);
    assert_eq!(worker.get_state(), WorkerStates::Receiving);
    worker.set_failure("oops".to_string());
    assert_eq!(worker.get_failure(), Some("oops".to_string()));
}

#[test]
fn metadata_later_write_wins() {
    let mut m = TaskMetadata::new();
    m.insert("k".to_string(), MetadataValue::Number(1));
    m.insert("k".to_string(), MetadataValue::Null);
    m.insert("j".to_string(), MetadataValue::Bool(false));
    assert_eq!(m.len(), 2);
    assert!(matches!(m.get("k"), Some(MetadataValue::Null)));
    assert_eq!(m.get_str("k"), None);
    let copy = m.duplicate();
    assert!(matches!(copy.get("j"), Some(MetadataValue::Bool(false))));
    assert_eq!(MetadataValue::String("x".to_string()).as_str(), Some("x"));
    assert_eq!(MetadataValue::Number(3).as_str(), None);
}
