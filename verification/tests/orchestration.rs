use plugin_host::conversation::{
    build_conversation, character_prompt, conversation_entry, truncation_point,
    ConversationMessage, RequestError,
};
use plugin_host::error::PluginError;
use plugin_host::fragments::{absorb_delta, materialize, ToolCallDelta, ToolCallFragment};
use plugin_host::models::{Character, ChatMessage, FunctionCall, ToolCall};
use plugin_host::orchestration::{
    duplicate_conversation, reasoning_effort, report_failure, Failure, Orchestrator,
    ReasoningEffort, SaveAction, StreamDelta, ToolStep, TurnEnd, MAX_TURNS,
};

fn character() -> Character {
    Character {
        id: 1,
        name: "Mira".to_string(),
        description: "A ranger".to_string(),
        personality: String::new(),
        scenario: "A forest".to_string(),
        first_message: "Hello".to_string(),
        example_messages: String::new(),
    }
}

fn msg(id: u128, role: &str, content: &str) -> ChatMessage {
    ChatMessage::with_id(id, role, content, None)
}

fn piece(index: u32, id: Option<&str>, name: Option<&str>, arguments: Option<&str>) -> ToolCallDelta {
    ToolCallDelta {
        index,
        id: id.map(|s| s.to_string()),
        name: name.map(|s| s.to_string()),
        arguments: arguments.map(|s| s.to_string()),
    }
}

fn text(content: &str) -> StreamDelta {
    StreamDelta { content: Some(content.to_string()), tool_calls: vec![] }
}

fn pieces(tool_calls: Vec<ToolCallDelta>) -> StreamDelta {
    StreamDelta { content: None, tool_calls }
}

fn call(id: &str, name: &str, arguments: &str) -> ToolCall {
    ToolCall {
        id: id.to_string(),
        kind: "function".to_string(),
        function: FunctionCall { name: name.to_string(), arguments: arguments.to_string() },
    }
}

#[test]
fn system_prompt_lists_the_traits_that_are_set() {
    assert_eq!(character_prompt(&character()), "Name: Mira\nDescription: A ranger\nScenario: A forest");
    let full = Character {
        personality: "Wry".to_string(),
        example_messages: "Hi!".to_string(),
        ..character()
    };
    assert_eq!(
        character_prompt(&full),
        "Name: Mira\nDescription: A ranger\nPersonality: Wry\nScenario: A forest\nExample messages: Hi!"
    );
    let bare = Character {
        name: String::new(),
        description: String::new(),
        scenario: String::new(),
        ..character()
    };
    assert_eq!(character_prompt(&bare), "Name: ");
}

#[test]
fn conversation_follows_the_history() {
    let mut with_calls = msg(3, "assistant", "");
    with_calls.tool_calls = Some(vec![call("c1", "roll_dice", "{}")]);
    let mut result = msg(4, "tool", "{\"total\":4}");
    result.tool_call_id = Some("c1".to_string());
    let orphan = msg(5, "tool", "lost");
    let mut swiped = msg(6, "assistant", "first");
    swiped.alternatives = vec!["second".to_string()];
    swiped.active_index = 1;
    let messages = vec![
        msg(1, "user", "hi"),
        msg(2, "narrator", "skipped"),
        with_calls,
        result,
        orphan,
        swiped,
        msg(7, "system", "be brief"),
    ];
    let got = build_conversation(&messages, Some(&character()), None);
    assert_eq!(
        got,
        vec![
            ConversationMessage::System {
                content: "Name: Mira\nDescription: A ranger\nScenario: A forest".to_string()
            },
            ConversationMessage::User { content: "hi".to_string() },
            ConversationMessage::Assistant {
                content: None,
                tool_calls: Some(vec![call("c1", "roll_dice", "{}")]),
            },
            ConversationMessage::Tool {
                content: "{\"total\":4}".to_string(),
                tool_call_id: "c1".to_string()
            },
            ConversationMessage::Tool { content: "lost".to_string(), tool_call_id: String::new() },
            ConversationMessage::Assistant { content: Some("second".to_string()), tool_calls: None },
            ConversationMessage::System { content: "be brief".to_string() },
        ]
    );
}

#[test]
fn conversation_stops_before_the_regenerated_message() {
    let messages = vec![msg(1, "user", "a"), msg(2, "assistant", "b"), msg(3, "user", "c")];
    let got = build_conversation(&messages, None, Some(2));
    assert_eq!(got, vec![ConversationMessage::User { content: "a".to_string() }]);
    assert!(build_conversation(&messages, None, Some(1)).is_empty());
    assert_eq!(build_conversation(&messages, None, Some(9)).len(), 3);
    assert_eq!(build_conversation(&messages, None, None).len(), 3);
    assert_eq!(build_conversation(&messages, Some(&character()), Some(1)).len(), 1);
    assert!(build_conversation(&vec![], None, None).is_empty());
}

#[test]
fn conversation_cuts_at_the_first_message_of_that_id() {
    let messages = vec![msg(1, "user", "a"), msg(2, "user", "b"), msg(2, "user", "c")];
    assert_eq!(build_conversation(&messages, None, Some(2)).len(), 1);
}

#[test]
fn entries_by_role() {
    assert_eq!(conversation_entry(&msg(1, "other", "x")), None);
    assert_eq!(conversation_entry(&msg(1, "User", "x")), None);
    assert_eq!(
        conversation_entry(&msg(1, "assistant", "x")),
        Some(ConversationMessage::Assistant { content: Some("x".to_string()), tool_calls: None })
    );
}

#[test]
fn truncation_point_checks_the_request() {
    let messages = vec![msg(1, "user", "a"), msg(2, "assistant", "b")];
    assert_eq!(truncation_point(false, None, &messages), Ok(None));
    assert_eq!(truncation_point(false, Some(2), &messages), Ok(None));
    assert_eq!(truncation_point(true, Some(2), &messages), Ok(Some(2)));
    assert_eq!(truncation_point(true, None, &messages), Err(RequestError::MissingMessageId));
    assert_eq!(truncation_point(true, Some(3), &messages), Err(RequestError::MessageNotFound));
    assert_eq!(truncation_point(true, Some(3), &vec![]), Err(RequestError::MessageNotFound));
}

#[test]
fn split_tool_call_is_joined() {
    let mut orch = Orchestrator::new(vec![], None);
    assert!(orch.begin_turn().is_some());
    assert_eq!(orch.on_delta(&pieces(vec![piece(0, Some("call_abc"), None, None)])), None);
    assert_eq!(
        orch.on_delta(&pieces(vec![piece(0, None, Some("roll_dice"), Some("{\"notation\":\"2d6\"}"))])),
        None
    );
    match orch.end_stream() {
        TurnEnd::ToolCalls { calls, message, event } => {
            assert_eq!(calls, vec![call("call_abc", "roll_dice", "{\"notation\":\"2d6\"}")]);
            assert_eq!(message.role, "assistant");
            assert_eq!(message.content, "");
            assert_eq!(message.tool_calls, Some(calls.clone()));
            assert_eq!(
                event,
                "data: [TOOL_CALLS] [{\"function\":{\"arguments\":\"{\\\"notation\\\":\\\"2d6\\\"}\",\"name\":\"roll_dice\"},\"id\":\"call_abc\",\"type\":\"function\"}]\n\n"
            );
        }
        other => panic!("unexpected {:?}", other),
    }
}

#[test]
fn pieces_join_in_arrival_order_and_calls_sort_by_index() {
    let mut fragments: Vec<ToolCallFragment> = Vec::new();
    absorb_delta(&mut fragments, &piece(2, Some("c"), Some("third"), Some("{")));
    absorb_delta(&mut fragments, &piece(0, Some("a"), None, None));
    absorb_delta(&mut fragments, &piece(2, None, None, Some("}")));
    absorb_delta(&mut fragments, &piece(1, Some("b"), Some("sec"), None));
    absorb_delta(&mut fragments, &piece(1, Some("b2"), Some("ond"), Some("[]")));
    absorb_delta(&mut fragments, &piece(0, None, Some("first"), Some("1")));
    assert_eq!(
        fragments,
        vec![
            ToolCallFragment {
                index: 0,
                id: "a".to_string(),
                name: "first".to_string(),
                arguments: "1".to_string()
            },
            ToolCallFragment {
                index: 1,
                id: "bb2".to_string(),
                name: "second".to_string(),
                arguments: "[]".to_string()
            },
            ToolCallFragment {
                index: 2,
                id: "c".to_string(),
                name: "third".to_string(),
                arguments: "{}".to_string()
            },
        ]
    );
    assert_eq!(
        materialize(&fragments),
        vec![call("a", "first", "1"), call("bb2", "second", "[]"), call("c", "third", "{}")]
    );
    assert!(materialize(&vec![]).is_empty());
}

#[test]
fn empty_piece_still_opens_a_call() {
    let mut orch = Orchestrator::new(vec![], None);
    orch.begin_turn();
    orch.on_delta(&pieces(vec![piece(4, None, None, None)]));
    match orch.end_stream() {
        TurnEnd::ToolCalls { calls, .. } => assert_eq!(calls, vec![call("", "", "")]),
        other => panic!("unexpected {:?}", other),
    }
}

#[test]
fn text_is_passed_on_and_stored_at_the_end() {
    let start = vec![ConversationMessage::User { content: "hi".to_string() }];
    let mut orch = Orchestrator::new(start.clone(), None);
    assert_eq!(orch.turns(), 0);
    assert_eq!(orch.begin_turn(), Some(start));
    assert_eq!(orch.turns(), 1);
    assert_eq!(orch.on_delta(&text("Hel")), Some("data: \"Hel\"\n\n".to_string()));
    assert_eq!(orch.on_delta(&text("lo \"you\"\n")), Some("data: \"lo \\\"you\\\"\\n\"\n\n".to_string()));
    assert_eq!(orch.on_delta(&StreamDelta { content: None, tool_calls: vec![] }), None);
    match orch.end_stream() {
        TurnEnd::Finished { save: Some(SaveAction::Message(m)), event } => {
            assert_eq!(event, "data: [DONE]\n\n");
            assert_eq!(m.role, "assistant");
            assert_eq!(m.content, "Hello \"you\"\n");
            assert_eq!(m.tool_calls, None);
            assert_eq!(m.tool_call_id, None);
        }
        other => panic!("unexpected {:?}", other),
    }
}

#[test]
fn regeneration_stores_an_alternative() {
    let mut orch = Orchestrator::new(vec![], Some(99));
    orch.begin_turn();
    orch.on_delta(&text("again"));
    assert_eq!(
        orch.end_stream(),
        TurnEnd::Finished {
            save: Some(SaveAction::Alternative { message_id: 99, content: "again".to_string() }),
            event: "data: [DONE]\n\n".to_string(),
        }
    );
}

#[test]
fn empty_answer_stores_nothing() {
    let mut orch = Orchestrator::new(vec![], None);
    orch.begin_turn();
    assert_eq!(
        orch.end_stream(),
        TurnEnd::Finished { save: None, event: "data: [DONE]\n\n".to_string() }
    );
    let mut regen = Orchestrator::new(vec![], Some(1));
    regen.begin_turn();
    assert_eq!(
        regen.end_stream(),
        TurnEnd::Finished { save: None, event: "data: [DONE]\n\n".to_string() }
    );
}

#[test]
fn tool_turn_extends_the_conversation() {
    let start = vec![ConversationMessage::User { content: "roll".to_string() }];
    let mut orch = Orchestrator::new(start.clone(), None);
    orch.begin_turn();
    assert_eq!(orch.on_delta(&text("Rolling. ")), Some("data: \"Rolling. \"\n\n".to_string()));
    orch.on_delta(&pieces(vec![
        piece(1, Some("c2"), Some("flip"), Some("not json")),
        piece(0, Some("c1"), Some("roll_dice"), Some("{\"notation\":\"2d6\"}")),
    ]));
    let (calls, message) = match orch.end_stream() {
        TurnEnd::ToolCalls { calls, message, .. } => (calls, message),
        other => panic!("unexpected {:?}", other),
    };
    assert_eq!(
        calls,
        vec![call("c1", "roll_dice", "{\"notation\":\"2d6\"}"), call("c2", "flip", "not json")]
    );
    assert_eq!(message.content, "Rolling. ");
    assert_eq!(message.tool_calls, Some(calls.clone()));

    let first = match orch.prepare_tool(&calls[0]) {
        ToolStep::Invoke { name, arguments } => {
            assert_eq!(name, "roll_dice");
            let expected: serde_json::Value = serde_json::from_str("{\"notation\":\"2d6\"}").unwrap();
            assert_eq!(arguments, expected);
            orch.finish_tool(&calls[0], Ok(serde_json::from_str("{\"total\":7}").unwrap()))
        }
        other => panic!("unexpected {:?}", other),
    };
    assert_eq!(first.message.role, "tool");
    assert_eq!(first.message.content, "{\"total\":7}");
    assert_eq!(first.message.tool_call_id, Some("c1".to_string()));
    assert_eq!(first.message.tool_calls, None);
    assert_eq!(
        first.event,
        "data: [TOOL_RESULT] {\"id\":\"c1\",\"result\":\"{\\\"total\\\":7}\"}\n\n"
    );

    let parse_error = serde_json::from_str::<serde_json::Value>("not json").unwrap_err().to_string();
    let second = match orch.prepare_tool(&calls[1]) {
        ToolStep::Settled(record) => record,
        other => panic!("unexpected {:?}", other),
    };
    let content = format!("Error parsing arguments: {}", parse_error);
    assert_eq!(second.message.role, "tool");
    assert_eq!(second.message.content, content);
    assert_eq!(second.message.tool_call_id, Some("c2".to_string()));
    let payload = serde_json::Value::String(content.clone()).to_string();
    assert_eq!(second.event, format!("data: [TOOL_RESULT] {{\"error\":{},\"id\":\"c2\"}}\n\n", payload));

    let mut expected = start;
    expected.push(ConversationMessage::Assistant { content: None, tool_calls: Some(calls.clone()) });
    expected.push(ConversationMessage::Tool {
        content: "{\"total\":7}".to_string(),
        tool_call_id: "c1".to_string(),
    });
    expected.push(ConversationMessage::Tool { content, tool_call_id: "c2".to_string() });
    assert_eq!(orch.begin_turn(), Some(expected));
    assert_eq!(orch.turns(), 2);
    assert_eq!(
        orch.end_stream(),
        TurnEnd::Finished { save: None, event: "data: [DONE]\n\n".to_string() }
    );
}

#[test]
fn failed_tool_is_recorded_not_fatal() {
    let mut orch = Orchestrator::new(vec![], None);
    orch.begin_turn();
    let c = call("c9", "missing", "{}");
    let record = orch.finish_tool(&c, Err(PluginError::ToolNotFound("missing".to_string())));
    assert_eq!(record.message.content, "Error executing tool: Tool not found: missing");
    assert_eq!(record.message.tool_call_id, Some("c9".to_string()));
    assert_eq!(
        record.event,
        "data: [TOOL_RESULT] {\"error\":\"Error executing tool: Tool not found: missing\",\"id\":\"c9\"}\n\n"
    );
    let record = orch.finish_tool(&c, Err(PluginError::PluginDisabled("p".to_string())));
    assert_eq!(record.message.content, "Error executing tool: Plugin p is disabled");
    assert_eq!(
        orch.begin_turn().map(|c| c.len()),
        Some(2)
    );
}

#[test]
fn five_tool_turns_end_the_request_silently() {
    let mut orch = Orchestrator::new(vec![], None);
    let mut stored_final = 0;
    let mut turns = 0;
    while let Some(conversation) = orch.begin_turn() {
        turns += 1;
        assert_eq!(conversation.len(), (turns - 1) * 2);
        orch.on_delta(&text("thinking"));
        orch.on_delta(&pieces(vec![piece(0, Some("c"), Some("loop"), Some("{}"))]));
        match orch.end_stream() {
            TurnEnd::ToolCalls { calls, .. } => {
                assert_eq!(calls.len(), 1);
                match orch.prepare_tool(&calls[0]) {
                    ToolStep::Invoke { .. } => {
                        orch.finish_tool(&calls[0], Ok(serde_json::Value::Null));
                    }
                    other => panic!("unexpected {:?}", other),
                }
            }
            TurnEnd::Finished { .. } => stored_final += 1,
        }
        assert!(turns <= 5);
    }
    assert_eq!(turns, 5);
    assert_eq!(MAX_TURNS, 5);
    assert_eq!(orch.turns(), 5);
    assert_eq!(stored_final, 0);
    assert_eq!(orch.begin_turn(), None);
    assert_eq!(orch.turns(), 5);
}

#[test]
fn each_turn_starts_with_empty_buffers() {
    let mut orch = Orchestrator::new(vec![], None);
    orch.begin_turn();
    orch.on_delta(&text("left over"));
    orch.on_delta(&pieces(vec![piece(0, Some("c"), Some("t"), Some("{}"))]));
    orch.begin_turn();
    assert_eq!(
        orch.end_stream(),
        TurnEnd::Finished { save: None, event: "data: [DONE]\n\n".to_string() }
    );
}

#[test]
fn failures_are_reported_as_events() {
    assert_eq!(report_failure(Failure::Stream, "timeout"), "data: [ERROR] timeout\n\n");
    assert_eq!(report_failure(Failure::Service, "401"), "data: [ERROR] OpenAI Error: 401\n\n");
    assert_eq!(
        report_failure(Failure::BuildRequest, "no model"),
        "data: [ERROR] Failed to build completion request: no model\n\n"
    );
    assert_eq!(
        report_failure(Failure::SaveToolCalls, "db"),
        "data: [ERROR] Failed to save tool calls: db\n\n"
    );
    assert_eq!(
        report_failure(Failure::SaveResponse, "db"),
        "data: [ERROR] Failed to save response: db\n\n"
    );
}

#[test]
fn reasoning_effort_defaults_to_medium() {
    assert_eq!(reasoning_effort("low"), ReasoningEffort::Low);
    assert_eq!(reasoning_effort("medium"), ReasoningEffort::Medium);
    assert_eq!(reasoning_effort("high"), ReasoningEffort::High);
    assert_eq!(reasoning_effort("none"), ReasoningEffort::Off);
    assert_eq!(reasoning_effort(""), ReasoningEffort::Medium);
    assert_eq!(reasoning_effort("HIGH"), ReasoningEffort::Medium);
}

#[test]
fn conversation_copies_are_equal() {
    let entries = vec![
        ConversationMessage::System { content: "s".to_string() },
        ConversationMessage::Assistant {
            content: Some("a".to_string()),
            tool_calls: Some(vec![call("i", "n", "{}")]),
        },
        ConversationMessage::Tool { content: "t".to_string(), tool_call_id: "i".to_string() },
    ];
    assert_eq!(duplicate_conversation(&entries), entries);
}
