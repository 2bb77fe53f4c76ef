use chat_cli::ids::parse_id;
use chat_cli::model::{conversation_id_for, ModelResponseChunk, ResponseAccumulator};

#[test]
fn test_conversation_id_generation_with_provided_id() {
    let conversation_id = conversation_id_for(Some("test-conv-123".to_string()));
    assert_eq!(conversation_id, "test-conv-123".to_string());
}

#[test]
fn test_conversation_id_generation_without_provided_id() {
    let conversation_id = conversation_id_for(None);

    assert_eq!(conversation_id.len(), 36);
    assert!(conversation_id.contains('-'));

    assert!(parse_id(&conversation_id).is_some());
}

#[test]
fn test_process_assistant_response_event() {
    let mut acc = ResponseAccumulator::new();
    let mut chunks = Vec::new();
    chunks.push(acc.on_assistant_text("Hello world".to_string()));

    assert_eq!(acc.content, "Hello world");

    assert_eq!(chunks.len(), 1);
    match &chunks[0] {
        ModelResponseChunk::AssistantMessage(msg) => assert_eq!(msg, "Hello world"),
        _ => panic!("Expected AssistantMessage chunk"),
    }
}

#[test]
fn test_process_tool_use_event() {
    let input_json = r#"{"path":"/tmp/test.txt"}"#;
    let mut acc = ResponseAccumulator::new();
    let mut chunks = Vec::new();
    if let Some(c) = acc.on_tool_use("fs_read".to_string(), Some(input_json.to_string())) {
        chunks.push(c);
    }

    assert_eq!(acc.tool_requests.len(), 1);
    assert_eq!(acc.tool_requests[0].tool_name, "fs_read");
    assert!(acc.tool_requests[0].parameters.contains("path"));
    assert!(acc.tool_requests[0].parameters.contains("/tmp/test.txt"));

    assert_eq!(chunks.len(), 1);
    match &chunks[0] {
        ModelResponseChunk::ToolUseRequest { tool_name, parameters } => {
            assert_eq!(tool_name, "fs_read");
            assert!(parameters.contains("path"));
        }
        _ => panic!("Expected ToolUseRequest chunk"),
    }
}

#[test]
fn accumulator_joins_text_and_skips_tool_use_without_input() {
    let mut acc = ResponseAccumulator::new();
    acc.on_assistant_text("Hel".to_string());
    acc.on_assistant_text("lo".to_string());
    assert!(acc.on_tool_use("t".to_string(), None).is_none());
    let r = acc.finish();
    assert_eq!(r.content, "Hello");
    assert_eq!(r.tool_requests.len(), 0);
}
