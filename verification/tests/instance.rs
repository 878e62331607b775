use plugin_host::error::PluginError;
use plugin_host::instance::{PluginInstance, ReaderEvent};
use plugin_host::protocol::{JsonRpcRequest, PluginMessage, PluginRequestId};

fn request(id: Option<PluginRequestId>) -> JsonRpcRequest {
    JsonRpcRequest {
        json_rpc: "2.0".to_string(),
        method: "call_tool".to_string(),
        params: None,
        id,
    }
}

#[test]
fn request_without_id_is_refused() {
    let mut inst = PluginInstance::new();
    assert_eq!(inst.send_request(&request(None)), Err(PluginError::MissingRequestId));
    assert!(!inst.is_pending(&PluginRequestId::Number(1)));
}

#[test]
fn sent_request_is_pending_until_answered() {
    let mut inst = PluginInstance::new();
    let id = PluginRequestId::Number(42);
    let line = inst.send_request(&request(Some(id.clone()))).unwrap();
    assert_eq!(line, "{\"id\":42,\"json_rpc\":\"2.0\",\"method\":\"call_tool\",\"params\":null}\n");
    assert!(inst.is_pending(&id));
    assert!(!inst.is_pending(&PluginRequestId::Number(43)));
    assert!(!inst.is_pending(&PluginRequestId::String("42".to_string())));

    let event = inst.handle_line("{\"json_rpc\":\"2.0\",\"result\":{\"ok\":true},\"id\":42}\n");
    match event {
        ReaderEvent::Resolved(resp) => {
            assert_eq!(resp.id, Some(id.clone()));
            assert_eq!(resp.result, Some(serde_json::from_str("{\"ok\":true}").unwrap()));
            assert!(resp.error.is_none());
        }
        other => panic!("unexpected {:?}", other),
    }
    assert!(!inst.is_pending(&id));
}

#[test]
fn a_request_is_resolved_once() {
    let mut inst = PluginInstance::new();
    inst.send_request(&request(Some(PluginRequestId::Number(1)))).unwrap();
    let line = "{\"json_rpc\":\"2.0\",\"result\":1,\"id\":1}";
    assert!(matches!(inst.handle_line(line), ReaderEvent::Resolved(_)));
    assert!(matches!(inst.handle_line(line), ReaderEvent::Unmatched(_)));
}

#[test]
fn responses_match_by_id_not_by_order() {
    let mut inst = PluginInstance::new();
    let a = PluginRequestId::Number(1);
    let b = PluginRequestId::String("b".to_string());
    inst.send_request(&request(Some(a.clone()))).unwrap();
    inst.send_request(&request(Some(b.clone()))).unwrap();
    match inst.handle_line("{\"json_rpc\":\"2.0\",\"result\":2,\"id\":\"b\"}") {
        ReaderEvent::Resolved(r) => assert_eq!(r.id, Some(b.clone())),
        other => panic!("unexpected {:?}", other),
    }
    assert!(inst.is_pending(&a));
    assert!(!inst.is_pending(&b));
    match inst.handle_line("{\"json_rpc\":\"2.0\",\"result\":1,\"id\":1}") {
        ReaderEvent::Resolved(r) => assert_eq!(r.id, Some(a.clone())),
        other => panic!("unexpected {:?}", other),
    }
    assert!(!inst.is_pending(&a));
}

#[test]
fn unmatched_and_idless_responses_are_dropped() {
    let mut inst = PluginInstance::new();
    inst.send_request(&request(Some(PluginRequestId::Number(1)))).unwrap();
    assert!(matches!(
        inst.handle_line("{\"json_rpc\":\"2.0\",\"result\":1,\"id\":2}"),
        ReaderEvent::Unmatched(_)
    ));
    assert!(matches!(
        inst.handle_line("{\"json_rpc\":\"2.0\",\"error\":{\"code\":-32700,\"message\":\"Parse error\"},\"id\":null}"),
        ReaderEvent::Unmatched(_)
    ));
    assert!(inst.is_pending(&PluginRequestId::Number(1)));
}

#[test]
fn notifications_requests_and_noise_change_nothing() {
    let mut inst = PluginInstance::new();
    let id = PluginRequestId::Number(5);
    inst.send_request(&request(Some(id.clone()))).unwrap();
    assert!(matches!(
        inst.handle_line("{\"json_rpc\":\"2.0\",\"method\":\"progress\",\"params\":{\"p\":1}}"),
        ReaderEvent::Notification(_)
    ));
    match inst.handle_line("{\"json_rpc\":\"2.0\",\"method\":\"host_info\",\"id\":5}") {
        ReaderEvent::UnsupportedRequest(r) => assert_eq!(r.method, "host_info"),
        other => panic!("unexpected {:?}", other),
    }
    assert_eq!(inst.handle_line("garbage"), ReaderEvent::Ignored);
    assert_eq!(inst.handle_line("{\"jsonrpc\":\"2.0\",\"result\":1,\"id\":5}"), ReaderEvent::Ignored);
    assert!(inst.is_pending(&id));
}

#[test]
fn resending_an_id_keeps_one_entry() {
    let mut inst = PluginInstance::new();
    let id = PluginRequestId::Number(9);
    inst.send_request(&request(Some(id.clone()))).unwrap();
    inst.send_request(&request(Some(id.clone()))).unwrap();
    assert!(matches!(
        inst.handle_line("{\"json_rpc\":\"2.0\",\"result\":1,\"id\":9}"),
        ReaderEvent::Resolved(_)
    ));
    assert!(!inst.is_pending(&id));
}

#[test]
fn sent_line_is_what_the_codec_reads() {
    let mut inst = PluginInstance::new();
    let req = request(Some(PluginRequestId::String("x".to_string())));
    let line = inst.send_request(&req).unwrap();
    assert_eq!(PluginMessage::from_line(&line), Some(PluginMessage::Request(req)));
}
