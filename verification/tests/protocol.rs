use plugin_host::models::Tool;
use plugin_host::protocol::{
    CallToolParams, InitializeParams, InitializeResult, JsonRpcError, JsonRpcNotification,
    JsonRpcRequest, JsonRpcResponse, PluginMessage, PluginRequestId,
};
use serde_json::Value;

fn parse(text: &str) -> Value {
    serde_json::from_str(text).unwrap()
}

fn sample_request() -> JsonRpcRequest {
    JsonRpcRequest {
        json_rpc: "2.0".to_string(),
        method: "call_tool".to_string(),
        params: Some(parse("{\"name\":\"roll_dice\",\"arguments\":{\"notation\":\"2d6\"}}")),
        id: Some(PluginRequestId::Number(7)),
    }
}

#[test]
fn request_line_is_one_compact_document() {
    let line = sample_request().to_line();
    assert_eq!(
        line,
        "{\"id\":7,\"json_rpc\":\"2.0\",\"method\":\"call_tool\",\"params\":{\"arguments\":{\"notation\":\"2d6\"},\"name\":\"roll_dice\"}}\n"
    );
    assert_eq!(line.matches('\n').count(), 1);
    assert!(line.ends_with('\n'));
}

#[test]
fn request_round_trips_through_a_line() {
    let req = sample_request();
    let back = PluginMessage::from_line(&req.to_line());
    assert_eq!(back, Some(PluginMessage::Request(req)));
}

#[test]
fn request_with_string_id_round_trips() {
    let req = JsonRpcRequest {
        json_rpc: "2.0".to_string(),
        method: "initialize".to_string(),
        params: None,
        id: Some(PluginRequestId::String("abc-1".to_string())),
    };
    let msg = PluginMessage::Request(req);
    assert_eq!(PluginMessage::from_line(&msg.to_line()), Some(msg));
}

#[test]
fn response_with_result_round_trips() {
    let resp = JsonRpcResponse {
        json_rpc: "2.0".to_string(),
        result: Some(parse("{\"total\":8,\"rolls\":[3,5]}")),
        error: None,
        id: Some(PluginRequestId::Number(-12)),
    };
    let msg = PluginMessage::Response(resp);
    let line = msg.to_line();
    assert_eq!(
        line,
        "{\"error\":null,\"id\":-12,\"json_rpc\":\"2.0\",\"result\":{\"rolls\":[3,5],\"total\":8}}\n"
    );
    assert_eq!(PluginMessage::from_line(&line), Some(msg));
}

#[test]
fn response_with_error_round_trips() {
    let resp = JsonRpcResponse {
        json_rpc: "2.0".to_string(),
        result: None,
        error: Some(JsonRpcError {
            code: -32601,
            message: "Method not found: nope".to_string(),
            data: Some(parse("[1,2]")),
        }),
        id: Some(PluginRequestId::String("r".to_string())),
    };
    let msg = PluginMessage::Response(resp);
    assert_eq!(PluginMessage::from_json(&msg.to_json()), Some(msg.clone()));
    assert_eq!(PluginMessage::from_line(&msg.to_line()), Some(msg));
}

#[test]
fn notification_round_trips() {
    let note = JsonRpcNotification {
        json_rpc: "2.0".to_string(),
        method: "log".to_string(),
        params: Some(parse("{\"level\":\"info\"}")),
    };
    let msg = PluginMessage::Notification(note);
    let line = msg.to_line();
    assert_eq!(line, "{\"json_rpc\":\"2.0\",\"method\":\"log\",\"params\":{\"level\":\"info\"}}\n");
    assert_eq!(PluginMessage::from_line(&line), Some(msg));
}

#[test]
fn null_payload_reads_as_absent() {
    let req = JsonRpcRequest {
        json_rpc: "2.0".to_string(),
        method: "m".to_string(),
        params: Some(Value::Null),
        id: Some(PluginRequestId::Number(1)),
    };
    let back = PluginMessage::from_line(&req.to_line());
    let expected = JsonRpcRequest { params: None, ..req };
    assert_eq!(back, Some(PluginMessage::Request(expected)));
}

#[test]
fn request_without_id_reads_as_notification() {
    let req = JsonRpcRequest {
        json_rpc: "2.0".to_string(),
        method: "m".to_string(),
        params: None,
        id: None,
    };
    let back = PluginMessage::from_line(&req.to_line());
    assert_eq!(
        back,
        Some(PluginMessage::Notification(JsonRpcNotification {
            json_rpc: "2.0".to_string(),
            method: "m".to_string(),
            params: None,
        }))
    );
}

#[test]
fn shapes_are_told_apart_by_members() {
    let response = PluginMessage::from_line("{\"json_rpc\":\"2.0\",\"id\":3,\"result\":true}");
    assert!(matches!(response, Some(PluginMessage::Response(_))));
    let bare = PluginMessage::from_line("{\"json_rpc\":\"2.0\"}");
    assert_eq!(
        bare,
        Some(PluginMessage::Response(JsonRpcResponse {
            json_rpc: "2.0".to_string(),
            result: None,
            error: None,
            id: None,
        }))
    );
    let note = PluginMessage::from_line("{\"json_rpc\":\"2.0\",\"method\":\"tick\"}");
    assert!(matches!(note, Some(PluginMessage::Notification(_))));
    let request = PluginMessage::from_line("{\"json_rpc\":\"2.0\",\"method\":\"ask\",\"id\":\"q\"}");
    assert!(matches!(request, Some(PluginMessage::Request(_))));
}

#[test]
fn lines_of_no_shape_are_passed_over() {
    assert_eq!(PluginMessage::from_line("not json at all"), None);
    assert_eq!(PluginMessage::from_line(""), None);
    assert_eq!(PluginMessage::from_line("[1,2,3]"), None);
    assert_eq!(PluginMessage::from_line("{\"method\":\"m\",\"id\":1}"), None);
    assert_eq!(PluginMessage::from_line("{\"json_rpc\":2,\"id\":1}"), None);
    assert_eq!(PluginMessage::from_line("{\"json_rpc\":\"2.0\",\"id\":1.5}"), None);
    assert_eq!(PluginMessage::from_line("{\"json_rpc\":\"2.0\",\"id\":true,\"method\":\"m\"}"), None);
    assert_eq!(PluginMessage::from_line("{\"json_rpc\":\"2.0\",\"error\":\"bad\"}"), None);
    assert_eq!(
        PluginMessage::from_line("{\"json_rpc\":\"2.0\",\"error\":{\"code\":\"x\",\"message\":\"m\"}}"),
        None
    );
}

#[test]
fn version_marker_has_one_name() {
    let line = "{\"jsonrpc\":\"2.0\",\"result\":{},\"id\":1}";
    assert_eq!(PluginMessage::from_line(line), None);
}

#[test]
fn version_marker_is_carried_not_judged() {
    let got = PluginMessage::from_line("{\"json_rpc\":\"9.9\",\"id\":1,\"result\":1}\n");
    match got {
        Some(PluginMessage::Response(r)) => {
            assert_eq!(r.json_rpc, "9.9");
            assert_eq!(r.id, Some(PluginRequestId::Number(1)));
            assert_eq!(r.result, Some(parse("1")));
        }
        other => panic!("unexpected {:?}", other),
    }
}

#[test]
fn identifier_out_of_range_is_no_identifier() {
    let line = "{\"json_rpc\":\"2.0\",\"id\":9223372036854775808,\"result\":1}";
    assert_eq!(PluginMessage::from_line(line), None);
    let edge = "{\"json_rpc\":\"2.0\",\"id\":9223372036854775807,\"result\":1}";
    match PluginMessage::from_line(edge) {
        Some(PluginMessage::Response(r)) => {
            assert_eq!(r.id, Some(PluginRequestId::Number(i64::MAX)))
        }
        other => panic!("unexpected {:?}", other),
    }
}

#[test]
fn identifiers_compare_by_content() {
    let a = PluginRequestId::String("1".to_string());
    let b = PluginRequestId::Number(1);
    assert!(a.same_as(&PluginRequestId::String("1".to_string())));
    assert!(!a.same_as(&b));
    assert!(b.same_as(&PluginRequestId::Number(1)));
    assert!(!b.same_as(&PluginRequestId::Number(2)));
    assert_eq!(a.duplicate(), a);
    assert_eq!(PluginRequestId::from_json(&a.to_json()), Some(a));
    assert_eq!(PluginRequestId::from_json(&b.to_json()), Some(b));
    assert_eq!(PluginRequestId::from_json(&Value::Bool(true)), None);
}

#[test]
fn error_object_reads_and_writes() {
    let e = JsonRpcError { code: -1, message: "boom".to_string(), data: None };
    assert_eq!(e.to_json(), parse("{\"code\":-1,\"message\":\"boom\",\"data\":null}"));
    assert_eq!(JsonRpcError::from_json(&e.to_json()), Some(e));
    assert_eq!(JsonRpcError::from_json(&parse("{\"code\":1}")), None);
    assert_eq!(JsonRpcError::from_json(&parse("{\"message\":\"m\"}")), None);
    assert_eq!(JsonRpcError::from_json(&parse("{\"code\":1.5,\"message\":\"m\"}")), None);
}

#[test]
fn handshake_parameters_are_written() {
    let p = InitializeParams { host: "renoma".to_string(), version: "0.1.0".to_string() };
    assert_eq!(p.to_json(), parse("{\"host\":\"renoma\",\"version\":\"0.1.0\"}"));
}

#[test]
fn call_parameters_are_written() {
    let p = CallToolParams { name: "roll_dice".to_string(), arguments: parse("{\"notation\":\"2d6\"}") };
    assert_eq!(p.to_json(), parse("{\"name\":\"roll_dice\",\"arguments\":{\"notation\":\"2d6\"}}"));
}

#[test]
fn handshake_answer_is_read() {
    let v = parse(
        "{\"name\":\"dice_roll\",\"version\":\"0.1.0\",\"description\":\"Roll dice\",\"tools\":[{\"name\":\"roll_dice\",\"description\":\"Roll\",\"parameters\":{\"type\":\"object\"}}]}",
    );
    let got = InitializeResult::from_json(&v);
    assert_eq!(
        got,
        Some(InitializeResult {
            name: "dice_roll".to_string(),
            version: "0.1.0".to_string(),
            description: "Roll dice".to_string(),
            tools: vec![Tool {
                name: "roll_dice".to_string(),
                description: "Roll".to_string(),
                parameters: parse("{\"type\":\"object\"}"),
            }],
        })
    );
}

#[test]
fn handshake_answer_of_wrong_shape_is_refused() {
    assert_eq!(InitializeResult::from_json(&parse("{}")), None);
    assert_eq!(InitializeResult::from_json(&parse("\"x\"")), None);
    let no_tools = parse("{\"name\":\"a\",\"version\":\"1\",\"description\":\"d\"}");
    assert_eq!(InitializeResult::from_json(&no_tools), None);
    let tools_not_array = parse("{\"name\":\"a\",\"version\":\"1\",\"description\":\"d\",\"tools\":{}}");
    assert_eq!(InitializeResult::from_json(&tools_not_array), None);
    let bad_tool =
        parse("{\"name\":\"a\",\"version\":\"1\",\"description\":\"d\",\"tools\":[{\"name\":\"t\"}]}");
    assert_eq!(InitializeResult::from_json(&bad_tool), None);
    let no_parameters = parse(
        "{\"name\":\"a\",\"version\":\"1\",\"description\":\"d\",\"tools\":[{\"name\":\"t\",\"description\":\"d\"}]}",
    );
    assert_eq!(InitializeResult::from_json(&no_parameters), None);
    let empty = parse("{\"name\":\"a\",\"version\":\"1\",\"description\":\"d\",\"tools\":[]}");
    assert_eq!(InitializeResult::from_json(&empty).map(|r| r.tools.len()), Some(0));
}

#[test]
fn tool_reads_and_writes() {
    let t = Tool {
        name: "t".to_string(),
        description: "d".to_string(),
        parameters: Value::Null,
    };
    assert_eq!(t.to_json(), parse("{\"name\":\"t\",\"description\":\"d\",\"parameters\":null}"));
    assert_eq!(Tool::from_json(&t.to_json()), Some(t.clone()));
    assert_eq!(t.duplicate(), t);
}
