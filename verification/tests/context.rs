use chat_cli::context::{ContextBuilder, ContextContainer, ContextError, ResourceTarget};
use chat_cli::conversation::AssistantMessage;
use chat_cli::model::MessageRole;

#[test]
fn test_build_request_with_full_context() {
    let mut container = ContextContainer::new();
    container.set_agent_prompt("You are a helpful assistant".to_string());
    container.conversation_history.push_input_message("Hello".to_string());

    let request = ContextBuilder::build_request(&container, None).ok().unwrap();

    assert_eq!(request.messages.len(), 1);
    assert_eq!(request.messages[0].role, MessageRole::User);
    assert_eq!(request.system_prompt, Some("You are a helpful assistant".to_string()));
    assert_eq!(request.context, None);
}

#[test]
fn test_build_request_empty_history() {
    let container = ContextContainer::new();

    let result = ContextBuilder::build_request(&container, None);

    assert!(result.is_err());
    assert!(result.err().unwrap().message().contains("No messages"));
}

#[test]
fn test_build_request_no_agent_context() {
    let mut container = ContextContainer::new();
    container.conversation_history.push_input_message("Hello".to_string());

    let request = ContextBuilder::build_request(&container, None).ok().unwrap();

    assert_eq!(request.messages.len(), 1);
    assert_eq!(request.system_prompt, None);
    assert_eq!(request.context, None);
}

#[test]
fn test_build_messages_with_assistant_response() {
    let mut container = ContextContainer::new();
    container.conversation_history.push_input_message("Hello".to_string());
    container
        .conversation_history
        .push_assistant_message(AssistantMessage::new_response(None, "Hi there".to_string()));

    let request = ContextBuilder::build_request(&container, None).ok().unwrap();

    assert_eq!(request.messages.len(), 2);
    assert_eq!(request.messages[0].role, MessageRole::User);
    assert_eq!(request.messages[1].role, MessageRole::Assistant);
    assert_eq!(request.messages[1].content, "Hi there");
}

#[test]
fn test_build_messages_with_tool_use() {
    let mut container = ContextContainer::new();
    container.conversation_history.push_input_message("Run command".to_string());
    container
        .conversation_history
        .push_assistant_message(AssistantMessage::new_tool_use(None, "Using tool".to_string(), vec![]));

    let request = ContextBuilder::build_request(&container, None).ok().unwrap();

    assert_eq!(request.messages.len(), 2);
    assert_eq!(request.messages[1].content, "Using tool");
}

#[test]
fn build_messages_error_kind() {
    let container = ContextContainer::new();
    assert_eq!(ContextBuilder::build_messages(&container).err(), Some(ContextError::EmptyHistory));
}

#[test]
fn request_carries_loaded_context() {
    let mut container = ContextContainer::new();
    container.conversation_history.push_input_message("Hi".to_string());
    let request = ContextBuilder::build_request(&container, Some("ctx".to_string())).ok().unwrap();
    assert_eq!(request.context, Some("ctx".to_string()));
    assert_eq!(request.conversation_id, None);
}

#[test]
fn resource_targets_keep_file_references() {
    let refs = vec![
        "file:///tmp/a.txt".to_string(),
        "https://example.com".to_string(),
        "file:///tmp/*.md".to_string(),
    ];
    let targets = ContextBuilder::resource_targets(&refs);
    assert_eq!(targets.len(), 2);
    assert!(matches!(&targets[0], ResourceTarget::File(p) if p == "/tmp/a.txt"));
    assert!(matches!(&targets[1], ResourceTarget::Glob(p) if p == "/tmp/*.md"));
}

#[test]
fn resource_sections_and_context() {
    let mut content = String::new();
    ContextBuilder::append_resource(&mut content, "/tmp/a.txt", "hello");
    assert_eq!(content, "\n--- /tmp/a.txt ---\nhello\n");
    assert_eq!(ContextBuilder::resources_context(content.clone()), Some(content));
    assert_eq!(ContextBuilder::resources_context(String::new()), None);
}

#[test]
fn container_prompt_and_references_round_trip() {
    let mut c = ContextContainer::new();
    assert_eq!(c.get_agent_prompt(), None);
    c.set_agent_prompt("p".to_string());
    assert_eq!(c.get_agent_prompt(), Some("p".to_string()));
    c.set_resource_references(vec!["file://x".to_string()]);
    assert_eq!(c.get_resource_references(), vec!["file://x".to_string()]);
}

#[test]
fn join_resources_skips_unread_files() {
    let loaded = vec![
        ("/a".to_string(), Some("x".to_string())),
        ("/missing".to_string(), None),
        ("/b".to_string(), Some("".to_string())),
    ];
    assert_eq!(
        ContextBuilder::join_resources(&loaded),
        Some("\n--- /a ---\nx\n\n--- /b ---\n\n".to_string())
    );
    assert_eq!(ContextBuilder::join_resources(&vec![("/m".to_string(), None)]), None);
    assert_eq!(ContextBuilder::join_resources(&vec![]), None);
}
