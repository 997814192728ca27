use struct_llm::{Message, Provider, ToolFormat};

#[test]
fn test_message_creation() {
    let msg = Message::user("Hello");
    assert_eq!(msg.role, "user");
    assert_eq!(msg.content, "Hello");
}

#[test]
fn test_message_roles() {
    assert_eq!(Message::system("s").role, "system");
    assert_eq!(Message::assistant("a").role, "assistant");
    assert_eq!(Message::assistant("a").content, "a");
}

#[test]
fn test_provider_tool_format() {
    assert_eq!(Provider::OpenAI.tool_format(), ToolFormat::OpenAI);
    assert_eq!(Provider::Anthropic.tool_format(), ToolFormat::Anthropic);
    assert_eq!(Provider::Local.tool_format(), ToolFormat::OpenAI);
}
