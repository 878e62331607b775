use plugin_host::error::{join, PluginError};
use plugin_host::ids::{fresh_id, request_number};
use plugin_host::models::{
    duplicate_tool_calls, duplicate_tools, tool_calls_to_json, ChatMessage, DatabaseConfig,
    FunctionCall, PluginManifest, SwipeDirection, SwipeRequest, Tool, ToolCall, ROLE_ASSISTANT,
    ROLE_SYSTEM, ROLE_TOOL, ROLE_USER,
};
use plugin_host::orchestration::{DEFAULT_API_BASE, DEFAULT_MAX_TOKENS};

fn message(content: &str, alternatives: &[&str], active_index: usize) -> ChatMessage {
    let mut m = ChatMessage::with_id(1, ROLE_ASSISTANT, content, None);
    m.alternatives = alternatives.iter().map(|s| s.to_string()).collect();
    m.active_index = active_index;
    m
}

#[test]
fn new_message_has_defaults() {
    let m = ChatMessage::new(ROLE_USER, "hello");
    assert_eq!(m.role, "user");
    assert_eq!(m.content, "hello");
    assert_eq!(m.sender_id, None);
    assert!(m.alternatives.is_empty());
    assert_eq!(m.active_index, 0);
    assert_eq!(m.tool_calls, None);
    assert_eq!(m.tool_call_id, None);
    let other = ChatMessage::new(ROLE_USER, "hello");
    assert_ne!(m.id, other.id);
}

#[test]
fn message_from_sender_names_the_sender() {
    let m = ChatMessage::new_from_sender(ROLE_ASSISTANT, "hi", 77);
    assert_eq!(m.sender_id, Some(77));
    assert_eq!(m.role, "assistant");
    assert_eq!(m.content, "hi");
    assert!(m.alternatives.is_empty());
}

#[test]
fn message_with_id_is_exact() {
    let m = ChatMessage::with_id(5, ROLE_TOOL, "out", Some(2));
    assert_eq!(
        m,
        ChatMessage {
            id: 5,
            role: "tool".to_string(),
            content: "out".to_string(),
            sender_id: Some(2),
            alternatives: vec![],
            active_index: 0,
            tool_calls: None,
            tool_call_id: None,
        }
    );
}

#[test]
fn active_content_follows_the_index() {
    assert_eq!(message("primary", &[], 0).active_content(), "primary");
    assert_eq!(message("primary", &[], 3).active_content(), "primary");
    assert_eq!(message("primary", &["a", "b"], 0).active_content(), "primary");
    assert_eq!(message("primary", &["a", "b"], 1).active_content(), "a");
    assert_eq!(message("primary", &["a", "b"], 2).active_content(), "b");
    assert_eq!(message("primary", &["a", "b"], 3).active_content(), "primary");
    assert_eq!(message("primary", &["a", "b"], usize::MAX).active_content(), "primary");
}

#[test]
fn variant_count_counts_the_primary() {
    assert_eq!(message("p", &[], 0).variant_count(), 1);
    assert_eq!(message("p", &["a", "b", "c"], 0).variant_count(), 4);
}

#[test]
fn role_names() {
    assert_eq!(ROLE_USER, "user");
    assert_eq!(ROLE_ASSISTANT, "assistant");
    assert_eq!(ROLE_SYSTEM, "system");
    assert_eq!(ROLE_TOOL, "tool");
}

#[test]
fn tool_calls_are_written_as_an_array() {
    let calls = vec![ToolCall {
        id: "call_1".to_string(),
        kind: "function".to_string(),
        function: FunctionCall { name: "roll_dice".to_string(), arguments: "{\"n\":1}".to_string() },
    }];
    let expected: serde_json::Value = serde_json::from_str(
        "[{\"id\":\"call_1\",\"type\":\"function\",\"function\":{\"name\":\"roll_dice\",\"arguments\":\"{\\\"n\\\":1}\"}}]",
    )
    .unwrap();
    assert_eq!(tool_calls_to_json(&calls), expected);
    assert_eq!(calls[0].to_json(), expected[0]);
    assert_eq!(duplicate_tool_calls(&calls), calls);
    assert_eq!(calls[0].duplicate(), calls[0]);
}

#[test]
fn copies_are_equal() {
    let tools = vec![Tool {
        name: "t".to_string(),
        description: "d".to_string(),
        parameters: serde_json::Value::Bool(true),
    }];
    assert_eq!(duplicate_tools(&tools), tools);
    let manifest = PluginManifest {
        name: "p".to_string(),
        description: "d".to_string(),
        version: "1".to_string(),
        enabled: false,
        tools,
    };
    assert_eq!(manifest.duplicate(), manifest);
}

#[test]
fn error_texts() {
    assert_eq!(PluginError::MissingRequestId.message(), "Request must have an ID");
    assert_eq!(PluginError::Transport("eof".to_string()).message(), "eof");
    assert_eq!(
        PluginError::InitializationFailed("no".to_string()).message(),
        "Plugin initialization failed: no"
    );
    assert_eq!(
        PluginError::InitializationUnknown.message(),
        "Plugin initialization failed: Unknown error"
    );
    assert_eq!(
        PluginError::InitializationMalformed.message(),
        "Plugin initialization failed: malformed result"
    );
    assert_eq!(PluginError::ToolNotFound("t".to_string()).message(), "Tool not found: t");
    assert_eq!(PluginError::PluginDisabled("p".to_string()).message(), "Plugin p is disabled");
    assert_eq!(PluginError::ToolExecution("x".to_string()).message(), "Tool execution error: x");
    assert_eq!(PluginError::PluginNotFound("p".to_string()).message(), "Plugin not found: p");
    assert_eq!(join("a", "b"), "ab");
    assert_eq!(join("", ""), "");
}

#[test]
fn request_numbers_are_the_low_bits() {
    assert_eq!(request_number(0), 0);
    assert_eq!(request_number(5), 5);
    assert_eq!(request_number(u128::MAX), -1);
    assert_eq!(request_number(1u128 << 64), 0);
    assert_eq!(request_number((1u128 << 64) + 9), 9);
    assert_eq!(request_number(1u128 << 63), i64::MIN);
    assert_eq!(request_number((1u128 << 63) - 1), i64::MAX);
    assert_eq!(request_number(0x0123_4567_89ab_cdef_0123_4567_89ab_cdef), 0x0123_4567_89ab_cdef);
}

#[test]
fn fresh_ids_differ() {
    assert_ne!(fresh_id(), fresh_id());
}

#[test]
fn new_alternative_is_shown() {
    let mut m = message("p", &[], 0);
    m.append_alternative("a".to_string());
    assert_eq!(m.alternatives, vec!["a".to_string()]);
    assert_eq!(m.active_index, 1);
    assert_eq!(m.active_content(), "a");
    m.set_active_alternative(0);
    m.append_alternative("b".to_string());
    assert_eq!(m.alternatives, vec!["a".to_string(), "b".to_string()]);
    assert_eq!(m.active_index, 2);
    assert_eq!(m.active_content(), "b");
    assert_eq!(m.content, "p");
    assert_eq!(m.variant_count(), 3);
}

#[test]
fn active_alternative_must_exist() {
    let mut m = message("p", &["a", "b"], 1);
    m.set_active_alternative(3);
    assert_eq!(m.active_index, 1);
    m.set_active_alternative(2);
    assert_eq!(m.active_index, 2);
    m.set_active_alternative(0);
    assert_eq!(m.active_index, 0);
    m.set_active_alternative(usize::MAX);
    assert_eq!(m.active_index, 0);
}

#[test]
fn swipes_stop_at_the_ends() {
    let request = SwipeRequest { direction: SwipeDirection::Right };
    assert_eq!(message("p", &["a", "b"], 0).swipe_target(request.direction), 1);
    assert_eq!(message("p", &["a", "b"], 1).swipe_target(SwipeDirection::Right), 2);
    assert_eq!(message("p", &["a", "b"], 2).swipe_target(SwipeDirection::Right), 2);
    assert_eq!(message("p", &["a", "b"], 2).swipe_target(SwipeDirection::Left), 1);
    assert_eq!(message("p", &["a", "b"], 1).swipe_target(SwipeDirection::Left), 0);
    assert_eq!(message("p", &["a", "b"], 0).swipe_target(SwipeDirection::Left), 0);
    assert_eq!(message("p", &[], 0).swipe_target(SwipeDirection::Right), 0);
    assert_eq!(message("p", &[], 0).swipe_target(SwipeDirection::Left), 0);
    assert_eq!(message("p", &["a"], usize::MAX).swipe_target(SwipeDirection::Right), 1);
}

#[test]
fn defaults_of_a_request() {
    assert_eq!(DEFAULT_API_BASE, "https://openrouter.ai/api/v1");
    assert_eq!(DEFAULT_MAX_TOKENS, 4096);
    let config = DatabaseConfig::Local { url: "sqlite:renoma.db?mode=rwc".to_string() };
    assert_ne!(config, DatabaseConfig::Postgres { url: "sqlite:renoma.db?mode=rwc".to_string() });
}
