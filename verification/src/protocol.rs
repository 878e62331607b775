//! The wire protocol between the host and a plugin: one JSON document per line,
//! in one of three shapes that are told apart by their members alone.
use vstd::prelude::*;
use vstd::string::StringExecFns;
use crate::json::{
    json_as_array, json_as_i64, json_as_str, json_from_text, json_get, json_int, json_model,
    json_null, json_object_insert, json_object_new, json_parse, json_string, json_text,
    json_to_text, member, models_of, option_model, optional_member, read_optional, read_string,
    str_equal, string_member, JsonModel,
};
use crate::models::{tool_model, tool_of_model, tools_view, Tool, ToolView};

verus! {

/// The identifier that ties a response to its request: a string or an integer.
#[derive(Debug, Clone, PartialEq, Eq, Hash)]
pub enum PluginRequestId {
    String(String),
    Number(i64),
}

/// An identifier as a value.
pub enum RequestIdView {
    String(Seq<char>),
    Number(int),
}

impl View for PluginRequestId {
    type V = RequestIdView;

    open spec fn view(&self) -> RequestIdView {
        match self {
            PluginRequestId::String(s) => RequestIdView::String(s@),
            PluginRequestId::Number(n) => RequestIdView::Number(*n as int),
        }
    }
}

/// The document that stands for an identifier on the wire.
pub open spec fn id_model(id: RequestIdView) -> JsonModel {
    match id {
        RequestIdView::String(s) => JsonModel::Str(s),
        RequestIdView::Number(n) => JsonModel::Int(n),
    }
}

/// The identifier that a document stands for, if it stands for one: a string,
/// or an integer that fits in 64 signed bits.
pub open spec fn id_of_model(m: JsonModel) -> Option<RequestIdView> {
    match m {
        JsonModel::Str(s) => Some(RequestIdView::String(s)),
        JsonModel::Int(n) => if i64::MIN <= n <= i64::MAX {
            Some(RequestIdView::Number(n))
        } else {
            None
        },
        _ => None,
    }
}

impl PluginRequestId {
    /// Whether two identifiers are the same.
    pub fn same_as(&self, other: &PluginRequestId) -> (r: bool)
        ensures
            r == (self@ == other@),
    {
        match self {
            PluginRequestId::String(a) => match other {
                PluginRequestId::String(b) => str_equal(a.as_str(), b.as_str()),
                PluginRequestId::Number(_) => false,
            },
            PluginRequestId::Number(a) => match other {
                PluginRequestId::String(_) => false,
                PluginRequestId::Number(b) => *a == *b,
            },
        }
    }

    /// A copy of the identifier.
    pub fn duplicate(&self) -> (r: PluginRequestId)
        ensures
            r@ == self@,
    {
        match self {
            PluginRequestId::String(a) => PluginRequestId::String(a.clone()),
            PluginRequestId::Number(a) => PluginRequestId::Number(*a),
        }
    }

    /// The identifier as a document.
    pub fn to_json(&self) -> (v: serde_json::Value)
        ensures
            json_model(v) == id_model(self@),
    {
        match self {
            PluginRequestId::String(a) => json_string(a.as_str()),
            PluginRequestId::Number(a) => json_int(*a),
        }
    }

    /// Reads an identifier from a document.
    pub fn from_json(v: &serde_json::Value) -> (r: Option<PluginRequestId>)
        ensures
            option_id_view(r) == id_of_model(json_model(*v)),
    {
        match json_as_str(v) {
            Some(s) => Some(PluginRequestId::String(s.to_owned())),
            None => match json_as_i64(v) {
                Some(n) => Some(PluginRequestId::Number(n)),
                None => None,
            },
        }
    }
}

/// The view of an optional identifier.
pub open spec fn option_id_view(id: Option<PluginRequestId>) -> Option<RequestIdView> {
    match id {
        Some(i) => Some(i@),
        None => None,
    }
}

/// The document written for an optional member: the member itself, or `null`.
pub open spec fn nullable(m: Option<JsonModel>) -> JsonModel {
    match m {
        Some(x) => x,
        None => JsonModel::Null,
    }
}

/// The document written for an optional identifier.
pub open spec fn nullable_id(id: Option<RequestIdView>) -> JsonModel {
    match id {
        Some(i) => id_model(i),
        None => JsonModel::Null,
    }
}

/// The member `id` of a document, read as an optional identifier: `Some(None)`
/// where it is absent or `null`, `None` where it is there and is no identifier.
pub open spec fn optional_id(m: JsonModel) -> Option<Option<RequestIdView>> {
    match optional_member(m, "id"@) {
        None => Some(None),
        Some(x) => match id_of_model(x) {
            Some(i) => Some(Some(i)),
            None => None,
        },
    }
}

/// The member names of an envelope differ from one another, and so do those
/// of an error object and those of a tool.
pub proof fn lemma_member_names()
    ensures
        "json_rpc"@ != "method"@,
        "json_rpc"@ != "params"@,
        "json_rpc"@ != "id"@,
        "json_rpc"@ != "result"@,
        "json_rpc"@ != "error"@,
        "method"@ != "params"@,
        "method"@ != "id"@,
        "method"@ != "result"@,
        "method"@ != "error"@,
        "params"@ != "id"@,
        "result"@ != "error"@,
        "result"@ != "id"@,
        "error"@ != "id"@,
        "code"@ != "message"@,
        "code"@ != "data"@,
        "message"@ != "data"@,
        "name"@ != "description"@,
        "name"@ != "parameters"@,
        "description"@ != "parameters"@,
{
    reveal_strlit("json_rpc");
    reveal_strlit("method");
    reveal_strlit("params");
    reveal_strlit("id");
    reveal_strlit("result");
    reveal_strlit("error");
    reveal_strlit("code");
    reveal_strlit("message");
    reveal_strlit("data");
    reveal_strlit("name");
    reveal_strlit("description");
    reveal_strlit("parameters");
    assert("json_rpc"@.len() == 8 && "method"@.len() == 6 && "params"@.len() == 6);
    assert("id"@.len() == 2 && "result"@.len() == 6 && "error"@.len() == 5);
    assert("code"@.len() == 4 && "message"@.len() == 7 && "data"@.len() == 4);
    assert("name"@.len() == 4 && "description"@.len() == 11 && "parameters"@.len() == 10);
    assert("method"@[0] != "params"@[0]);
    assert("result"@[0] != "method"@[0]);
    assert("code"@[0] != "data"@[0]);
}

/// The error object that a plugin puts into a response.
#[derive(Debug, Clone, PartialEq)]
pub struct JsonRpcError {
    pub code: i64,
    pub message: String,
    pub data: Option<serde_json::Value>,
}

/// An error object as a value.
pub struct ErrorView {
    pub code: int,
    pub message: Seq<char>,
    pub data: Option<JsonModel>,
}

impl View for JsonRpcError {
    type V = ErrorView;

    open spec fn view(&self) -> ErrorView {
        ErrorView { code: self.code as int, message: self.message@, data: option_model(self.data) }
    }
}

/// The view of an optional error object.
pub open spec fn option_error_view(e: Option<JsonRpcError>) -> Option<ErrorView> {
    match e {
        Some(x) => Some(x@),
        None => None,
    }
}

/// The document written for an error object.
pub open spec fn error_model(e: ErrorView) -> JsonModel {
    JsonModel::Object(
        Map::<Seq<char>, JsonModel>::empty().insert("code"@, JsonModel::Int(e.code)).insert(
            "message"@,
            JsonModel::Str(e.message),
        ).insert("data"@, nullable(e.data)),
    )
}

/// The error object that a document stands for, if it stands for one: an
/// integer `code` that fits in 64 signed bits, a string `message`, and
/// optional `data`.
pub open spec fn error_of_model(m: JsonModel) -> Option<ErrorView> {
    match (member(m, "code"@), member(m, "message"@)) {
        (Some(JsonModel::Int(c)), Some(JsonModel::Str(msg))) => if i64::MIN <= c <= i64::MAX {
            Some(ErrorView { code: c, message: msg, data: optional_member(m, "data"@) })
        } else {
            None
        },
        _ => None,
    }
}

/// The member `error` of a document, read as an optional error object:
/// `Some(None)` where it is absent or `null`, `None` where it is there and is
/// no error object.
pub open spec fn optional_error(m: JsonModel) -> Option<Option<ErrorView>> {
    match optional_member(m, "error"@) {
        None => Some(None),
        Some(x) => match error_of_model(x) {
            Some(e) => Some(Some(e)),
            None => None,
        },
    }
}

/// The document for an optional payload.
fn nullable_json(v: &Option<serde_json::Value>) -> (r: serde_json::Value)
    ensures
        json_model(r) == nullable(option_model(*v)),
{
    match v {
        Some(x) => x.clone(),
        None => json_null(),
    }
}

/// The document for an optional identifier.
fn nullable_id_json(id: &Option<PluginRequestId>) -> (r: serde_json::Value)
    ensures
        json_model(r) == nullable_id(option_id_view(*id)),
{
    match id {
        Some(x) => x.to_json(),
        None => json_null(),
    }
}

/// Reads the member `id` of a document as an optional identifier. The outer
/// `None` says that the member is there and is no identifier.
fn read_optional_id(v: &serde_json::Value) -> (r: Option<Option<PluginRequestId>>)
    ensures
        match optional_id(json_model(*v)) {
            Some(id) => r.is_some() && option_id_view(r.unwrap()) == id,
            None => r.is_none(),
        },
{
    match read_optional(v, "id") {
        None => Some(None),
        Some(x) => match PluginRequestId::from_json(&x) {
            Some(id) => Some(Some(id)),
            None => None,
        },
    }
}

impl JsonRpcError {
    /// The error object as a document.
    pub fn to_json(&self) -> (v: serde_json::Value)
        ensures
            json_model(v) == error_model(self@),
    {
        let mut obj = json_object_new();
        json_object_insert(&mut obj, "code", json_int(self.code));
        json_object_insert(&mut obj, "message", json_string(self.message.as_str()));
        json_object_insert(&mut obj, "data", nullable_json(&self.data));
        obj
    }

    /// Reads an error object from a document.
    pub fn from_json(v: &serde_json::Value) -> (r: Option<JsonRpcError>)
        ensures
            option_error_view(r) == error_of_model(json_model(*v)),
    {
        let code = match json_get(v, "code") {
            Some(c) => match json_as_i64(c) {
                Some(n) => n,
                None => {
                    return None;
                },
            },
            None => {
                return None;
            },
        };
        let message = match read_string(v, "message") {
            Some(m) => m,
            None => {
                return None;
            },
        };
        let data = read_optional(v, "data");
        Some(JsonRpcError { code, message, data })
    }
}

/// A call from one side to the other, to be answered under the same `id`.
#[derive(Debug, Clone, PartialEq)]
pub struct JsonRpcRequest {
    pub json_rpc: String,
    pub method: String,
    pub params: Option<serde_json::Value>,
    pub id: Option<PluginRequestId>,
}

/// A request as a value.
pub struct RequestView {
    pub json_rpc: Seq<char>,
    pub method: Seq<char>,
    pub params: Option<JsonModel>,
    pub id: Option<RequestIdView>,
}

impl View for JsonRpcRequest {
    type V = RequestView;

    open spec fn view(&self) -> RequestView {
        RequestView {
            json_rpc: self.json_rpc@,
            method: self.method@,
            params: option_model(self.params),
            id: option_id_view(self.id),
        }
    }
}

/// A message that expects no answer.
#[derive(Debug, Clone, PartialEq)]
pub struct JsonRpcNotification {
    pub json_rpc: String,
    pub method: String,
    pub params: Option<serde_json::Value>,
}

/// A notification as a value.
pub struct NotificationView {
    pub json_rpc: Seq<char>,
    pub method: Seq<char>,
    pub params: Option<JsonModel>,
}

impl View for JsonRpcNotification {
    type V = NotificationView;

    open spec fn view(&self) -> NotificationView {
        NotificationView {
            json_rpc: self.json_rpc@,
            method: self.method@,
            params: option_model(self.params),
        }
    }
}

/// The answer to a request: a result or an error, under the request's `id`.
#[derive(Debug, Clone, PartialEq)]
pub struct JsonRpcResponse {
    pub json_rpc: String,
    pub result: Option<serde_json::Value>,
    pub error: Option<JsonRpcError>,
    pub id: Option<PluginRequestId>,
}

/// A response as a value.
pub struct ResponseView {
    pub json_rpc: Seq<char>,
    pub result: Option<JsonModel>,
    pub error: Option<ErrorView>,
    pub id: Option<RequestIdView>,
}

impl View for JsonRpcResponse {
    type V = ResponseView;

    open spec fn view(&self) -> ResponseView {
        ResponseView {
            json_rpc: self.json_rpc@,
            result: option_model(self.result),
            error: option_error_view(self.error),
            id: option_id_view(self.id),
        }
    }
}

/// One line of the wire, in one of its three shapes.
#[derive(Debug, Clone, PartialEq)]
pub enum PluginMessage {
    Request(JsonRpcRequest),
    Response(JsonRpcResponse),
    Notification(JsonRpcNotification),
}

/// A message of the wire as a value.
pub enum MessageView {
    Request(RequestView),
    Response(ResponseView),
    Notification(NotificationView),
}

impl View for PluginMessage {
    type V = MessageView;

    open spec fn view(&self) -> MessageView {
        match self {
            PluginMessage::Request(r) => MessageView::Request(r@),
            PluginMessage::Response(r) => MessageView::Response(r@),
            PluginMessage::Notification(n) => MessageView::Notification(n@),
        }
    }
}

/// The view of an optional message.
pub open spec fn option_message_view(m: Option<PluginMessage>) -> Option<MessageView> {
    match m {
        Some(x) => Some(x@),
        None => None,
    }
}

/// The document written for a request.
pub open spec fn request_model(r: RequestView) -> JsonModel {
    JsonModel::Object(
        Map::<Seq<char>, JsonModel>::empty().insert("json_rpc"@, JsonModel::Str(r.json_rpc)).insert(
            "method"@,
            JsonModel::Str(r.method),
        ).insert("params"@, nullable(r.params)).insert("id"@, nullable_id(r.id)),
    )
}

/// The document written for a notification.
pub open spec fn notification_model(n: NotificationView) -> JsonModel {
    JsonModel::Object(
        Map::<Seq<char>, JsonModel>::empty().insert("json_rpc"@, JsonModel::Str(n.json_rpc)).insert(
            "method"@,
            JsonModel::Str(n.method),
        ).insert("params"@, nullable(n.params)),
    )
}

/// The document written for an optional error object.
pub open spec fn nullable_error(e: Option<ErrorView>) -> JsonModel {
    match e {
        Some(x) => error_model(x),
        None => JsonModel::Null,
    }
}

/// The document written for a response.
pub open spec fn response_model(r: ResponseView) -> JsonModel {
    JsonModel::Object(
        Map::<Seq<char>, JsonModel>::empty().insert("json_rpc"@, JsonModel::Str(r.json_rpc)).insert(
            "result"@,
            nullable(r.result),
        ).insert("error"@, nullable_error(r.error)).insert("id"@, nullable_id(r.id)),
    )
}

/// The document written for a message.
pub open spec fn message_model(m: MessageView) -> JsonModel {
    match m {
        MessageView::Request(r) => request_model(r),
        MessageView::Response(r) => response_model(r),
        MessageView::Notification(n) => notification_model(n),
    }
}

/// A document has the shape of a response where it carries the version marker
/// and names no method; its result, error and identifier are optional, but an
/// error or identifier that is there must be well formed.
pub open spec fn as_response(m: JsonModel) -> Option<ResponseView> {
    match (string_member(m, "json_rpc"@), string_member(m, "method"@), optional_error(m), optional_id(m)) {
        (Some(version), None, Some(error), Some(id)) => Some(
            ResponseView { json_rpc: version, result: optional_member(m, "result"@), error, id },
        ),
        _ => None,
    }
}

/// A document has the shape of a notification where it carries the version
/// marker and a method name, and no identifier.
pub open spec fn as_notification(m: JsonModel) -> Option<NotificationView> {
    match (string_member(m, "json_rpc"@), string_member(m, "method"@), optional_id(m)) {
        (Some(version), Some(method), Some(None)) => Some(
            NotificationView {
                json_rpc: version,
                method,
                params: optional_member(m, "params"@),
            },
        ),
        _ => None,
    }
}

/// A document has the shape of a request where it carries the version marker,
/// a method name and an identifier.
pub open spec fn as_request(m: JsonModel) -> Option<RequestView> {
    match (string_member(m, "json_rpc"@), string_member(m, "method"@), optional_id(m)) {
        (Some(version), Some(method), Some(Some(id))) => Some(
            RequestView {
                json_rpc: version,
                method,
                params: optional_member(m, "params"@),
                id: Some(id),
            },
        ),
        _ => None,
    }
}

/// The message that a document stands for. The shapes are tried in a fixed
/// order: response, then notification, then request. A document of no shape
/// stands for nothing.
pub open spec fn decode_model(m: JsonModel) -> Option<MessageView> {
    match as_response(m) {
        Some(r) => Some(MessageView::Response(r)),
        None => match as_notification(m) {
            Some(n) => Some(MessageView::Notification(n)),
            None => match as_request(m) {
                Some(r) => Some(MessageView::Request(r)),
                None => None,
            },
        },
    }
}

/// The message that a line of text stands for: what its document stands for,
/// and nothing where the text is no JSON.
pub open spec fn decode_text(line: Seq<char>) -> Option<MessageView> {
    match json_parse(line) {
        Ok(m) => decode_model(m),
        Err(_) => None,
    }
}

/// The line written for a message: its document in compact form, then a line
/// feed.
pub open spec fn encode_text(m: MessageView) -> Seq<char> {
    json_text(message_model(m)) + "\n"@
}

impl JsonRpcRequest {
    /// The request as a document.
    pub fn to_json(&self) -> (v: serde_json::Value)
        ensures
            json_model(v) == request_model(self@),
    {
        let mut obj = json_object_new();
        json_object_insert(&mut obj, "json_rpc", json_string(self.json_rpc.as_str()));
        json_object_insert(&mut obj, "method", json_string(self.method.as_str()));
        json_object_insert(&mut obj, "params", nullable_json(&self.params));
        json_object_insert(&mut obj, "id", nullable_id_json(&self.id));
        obj
    }

    /// The line that carries the request: one JSON document and a line feed.
    pub fn to_line(&self) -> (line: String)
        ensures
            line@ == encode_text(MessageView::Request(self@)),
    {
        let mut line = json_to_text(&self.to_json());
        line.append("\n");
        line
    }
}

impl JsonRpcNotification {
    /// The notification as a document.
    pub fn to_json(&self) -> (v: serde_json::Value)
        ensures
            json_model(v) == notification_model(self@),
    {
        let mut obj = json_object_new();
        json_object_insert(&mut obj, "json_rpc", json_string(self.json_rpc.as_str()));
        json_object_insert(&mut obj, "method", json_string(self.method.as_str()));
        json_object_insert(&mut obj, "params", nullable_json(&self.params));
        obj
    }
}

impl JsonRpcResponse {
    /// The response as a document.
    pub fn to_json(&self) -> (v: serde_json::Value)
        ensures
            json_model(v) == response_model(self@),
    {
        let error = match &self.error {
            Some(e) => e.to_json(),
            None => json_null(),
        };
        let mut obj = json_object_new();
        json_object_insert(&mut obj, "json_rpc", json_string(self.json_rpc.as_str()));
        json_object_insert(&mut obj, "result", nullable_json(&self.result));
        json_object_insert(&mut obj, "error", error);
        json_object_insert(&mut obj, "id", nullable_id_json(&self.id));
        obj
    }
}

/// Reads the member `error` of a document as an optional error object. The
/// outer `None` says that the member is there and is no error object.
fn read_optional_error(v: &serde_json::Value) -> (r: Option<Option<JsonRpcError>>)
    ensures
        match optional_error(json_model(*v)) {
            Some(e) => r.is_some() && option_error_view(r.unwrap()) == e,
            None => r.is_none(),
        },
{
    match read_optional(v, "error") {
        None => Some(None),
        Some(x) => match JsonRpcError::from_json(&x) {
            Some(e) => Some(Some(e)),
            None => None,
        },
    }
}

impl PluginMessage {
    /// The message as a document.
    pub fn to_json(&self) -> (v: serde_json::Value)
        ensures
            json_model(v) == message_model(self@),
    {
        match self {
            PluginMessage::Request(r) => r.to_json(),
            PluginMessage::Response(r) => r.to_json(),
            PluginMessage::Notification(n) => n.to_json(),
        }
    }

    /// Reads a message from a document, trying the shapes in their order.
    pub fn from_json(v: &serde_json::Value) -> (r: Option<PluginMessage>)
        ensures
            option_message_view(r) == decode_model(json_model(*v)),
    {
        let version = match read_string(v, "json_rpc") {
            Some(s) => s,
            None => {
                return None;
            },
        };
        let id = match read_optional_id(v) {
            Some(i) => i,
            None => {
                return None;
            },
        };
        match read_string(v, "method") {
            None => match read_optional_error(v) {
                Some(error) => Some(
                    PluginMessage::Response(
                        JsonRpcResponse {
                            json_rpc: version,
                            result: read_optional(v, "result"),
                            error,
                            id,
                        },
                    ),
                ),
                None => None,
            },
            Some(method) => {
                let params = read_optional(v, "params");
                match id {
                    None => Some(
                        PluginMessage::Notification(
                            JsonRpcNotification { json_rpc: version, method, params },
                        ),
                    ),
                    Some(i) => Some(
                        PluginMessage::Request(
                            JsonRpcRequest { json_rpc: version, method, params, id: Some(i) },
                        ),
                    ),
                }
            },
        }
    }

    /// The line that carries the message: one JSON document and a line feed.
    pub fn to_line(&self) -> (line: String)
        ensures
            line@ == encode_text(self@),
    {
        let mut line = json_to_text(&self.to_json());
        line.append("\n");
        line
    }

    /// Reads a message from a line of text. A line that is no JSON, or whose
    /// document has none of the three shapes, gives nothing: the reader passes
    /// over it.
    pub fn from_line(line: &str) -> (r: Option<PluginMessage>)
        ensures
            option_message_view(r) == decode_text(line@),
    {
        match json_from_text(line) {
            Ok(v) => PluginMessage::from_json(&v),
            Err(_) => None,
        }
    }
}

/// Whether a message is told apart from every other by what is written for it.
/// A payload that is there but is `null` is written like one that is absent,
/// and a request without an identifier is written like a notification.
pub open spec fn distinct_on_wire(m: MessageView) -> bool {
    match m {
        MessageView::Request(r) => r.id is Some && r.params != Some(JsonModel::Null),
        MessageView::Response(r) => r.result != Some(JsonModel::Null) && (r.error matches Some(e)
            ==> e.data != Some(JsonModel::Null)),
        MessageView::Notification(n) => n.params != Some(JsonModel::Null),
    }
}

/// Reading back the document written for an error object gives that object,
/// unless its data is there and is `null`.
pub proof fn lemma_error_round_trip(e: JsonRpcError)
    requires
        e@.data != Some(JsonModel::Null),
    ensures
        error_of_model(error_model(e@)) == Some(e@),
        !(error_model(e@) is Null),
{
    lemma_member_names();
}

/// Reading back the document written for a tool gives that tool.
pub proof fn lemma_tool_round_trip(t: Tool)
    ensures
        tool_of_model(tool_model(t@)) == Some(t@),
{
    lemma_member_names();
}

/// Reading back the document written for a message gives that message: the
/// shape, the version marker, the method, the identifier and the payloads are
/// all kept. This holds of every message that is distinct on the wire.
pub proof fn lemma_decode_inverts_encode(msg: PluginMessage)
    requires
        distinct_on_wire(msg@),
    ensures
        decode_model(message_model(msg@)) == Some(msg@),
{
    lemma_member_names();
    match msg {
        PluginMessage::Request(r) => {
            let m = request_model(r@);
            assert(optional_member(m, "id"@) == Some(id_model(r@.id.unwrap())));
            assert(optional_id(m) == Some(r@.id));
            assert(optional_member(m, "params"@) == r@.params);
        },
        PluginMessage::Response(r) => {
            let m = response_model(r@);
            assert(string_member(m, "method"@) is None);
            assert(optional_id(m) == Some(r@.id));
            assert(optional_member(m, "result"@) == r@.result);
            match r.error {
                Some(e) => {
                    lemma_error_round_trip(e);
                },
                None => {},
            }
            assert(optional_error(m) == Some(r@.error));
        },
        PluginMessage::Notification(n) => {
            let m = notification_model(n@);
            assert(member(m, "id"@) is None);
            assert(optional_id(m) == Some(None::<RequestIdView>));
            assert(optional_member(m, "params"@) == n@.params);
        },
    }
}

/// What the host says of itself when it opens the handshake.
#[derive(Debug, Clone, PartialEq)]
pub struct InitializeParams {
    pub host: String,
    pub version: String,
}

/// The host's handshake parameters as a value.
pub struct InitializeParamsView {
    pub host: Seq<char>,
    pub version: Seq<char>,
}

impl View for InitializeParams {
    type V = InitializeParamsView;

    open spec fn view(&self) -> InitializeParamsView {
        InitializeParamsView { host: self.host@, version: self.version@ }
    }
}

/// The document written for the host's handshake parameters.
pub open spec fn initialize_params_model(p: InitializeParamsView) -> JsonModel {
    JsonModel::Object(
        Map::<Seq<char>, JsonModel>::empty().insert("host"@, JsonModel::Str(p.host)).insert(
            "version"@,
            JsonModel::Str(p.version),
        ),
    )
}

impl InitializeParams {
    /// The parameters as a document.
    pub fn to_json(&self) -> (v: serde_json::Value)
        ensures
            json_model(v) == initialize_params_model(self@),
    {
        let mut obj = json_object_new();
        json_object_insert(&mut obj, "host", json_string(self.host.as_str()));
        json_object_insert(&mut obj, "version", json_string(self.version.as_str()));
        obj
    }
}

/// The parameters of a `call_tool` request: the tool and its arguments.
#[derive(Debug, Clone, PartialEq)]
pub struct CallToolParams {
    pub name: String,
    pub arguments: serde_json::Value,
}

/// The parameters of a `call_tool` request as a value.
pub struct CallToolParamsView {
    pub name: Seq<char>,
    pub arguments: JsonModel,
}

impl View for CallToolParams {
    type V = CallToolParamsView;

    open spec fn view(&self) -> CallToolParamsView {
        CallToolParamsView { name: self.name@, arguments: json_model(self.arguments) }
    }
}

/// The document written for the parameters of a `call_tool` request.
pub open spec fn call_tool_params_model(p: CallToolParamsView) -> JsonModel {
    JsonModel::Object(
        Map::<Seq<char>, JsonModel>::empty().insert("name"@, JsonModel::Str(p.name)).insert(
            "arguments"@,
            p.arguments,
        ),
    )
}

impl CallToolParams {
    /// The parameters as a document.
    pub fn to_json(&self) -> (v: serde_json::Value)
        ensures
            json_model(v) == call_tool_params_model(self@),
    {
        let mut obj = json_object_new();
        json_object_insert(&mut obj, "name", json_string(self.name.as_str()));
        json_object_insert(&mut obj, "arguments", self.arguments.clone());
        obj
    }
}

/// What a plugin says of itself in answer to the handshake.
#[derive(Debug, Clone, PartialEq)]
pub struct InitializeResult {
    pub name: String,
    pub version: String,
    pub description: String,
    pub tools: Vec<Tool>,
}

/// A handshake answer as a value.
pub struct InitializeResultView {
    pub name: Seq<char>,
    pub version: Seq<char>,
    pub description: Seq<char>,
    pub tools: Seq<ToolView>,
}

impl View for InitializeResult {
    type V = InitializeResultView;

    open spec fn view(&self) -> InitializeResultView {
        InitializeResultView {
            name: self.name@,
            version: self.version@,
            description: self.description@,
            tools: tools_view(self.tools@),
        }
    }
}

/// The view of an optional handshake answer.
pub open spec fn option_initialize_result_view(r: Option<InitializeResult>) -> Option<
    InitializeResultView,
> {
    match r {
        Some(x) => Some(x@),
        None => None,
    }
}

/// The tools that a list of documents stands for, if each of them stands for
/// one.
pub open spec fn tools_of_models(items: Seq<JsonModel>) -> Option<Seq<ToolView>> {
    if forall|i: int| 0 <= i < items.len() ==> (#[trigger] tool_of_model(items[i])) is Some {
        Some(Seq::new(items.len(), |i: int| tool_of_model(items[i]).unwrap()))
    } else {
        None
    }
}

/// The handshake answer that a document stands for, if it stands for one:
/// string members `name`, `version` and `description`, and an array `tools`
/// of tools.
pub open spec fn initialize_result_of_model(m: JsonModel) -> Option<InitializeResultView> {
    match (
        string_member(m, "name"@),
        string_member(m, "version"@),
        string_member(m, "description"@),
        member(m, "tools"@),
    ) {
        (Some(name), Some(version), Some(description), Some(JsonModel::Array(items))) => {
            match tools_of_models(items) {
                Some(tools) => Some(InitializeResultView { name, version, description, tools }),
                None => None,
            }
        },
        _ => None,
    }
}

/// Reads a list of tools from a list of documents.
fn read_tools(items: &Vec<serde_json::Value>) -> (r: Option<Vec<Tool>>)
    ensures
        match tools_of_models(models_of(items@)) {
            Some(ts) => r.is_some() && tools_view(r.unwrap()@) == ts,
            None => r.is_none(),
        },
{
    let ghost models = models_of(items@);
    let mut tools: Vec<Tool> = Vec::new();
    let mut i: usize = 0;
    while i < items.len()
        invariant
            i <= items.len(),
            models == models_of(items@),
            tools@.len() == i,
            forall|k: int| 0 <= k < i ==> tool_of_model(#[trigger] models[k]) == Some(tools@[k]@),
        decreases items.len() - i,
    {
        assert(models[i as int] == json_model(items@[i as int]));
        match Tool::from_json(&items[i]) {
            Some(t) => {
                tools.push(t);
            },
            None => {
                assert(tool_of_model(models[i as int]) is None);
                return None;
            },
        }
        i += 1;
    }
    assert(tools_view(tools@) =~= tools_of_models(models).unwrap());
    Some(tools)
}

impl InitializeResult {
    /// Reads a handshake answer from a document.
    pub fn from_json(v: &serde_json::Value) -> (r: Option<InitializeResult>)
        ensures
            option_initialize_result_view(r) == initialize_result_of_model(json_model(*v)),
    {
        let name = match read_string(v, "name") {
            Some(s) => s,
            None => {
                return None;
            },
        };
        let version = match read_string(v, "version") {
            Some(s) => s,
            None => {
                return None;
            },
        };
        let description = match read_string(v, "description") {
            Some(s) => s,
            None => {
                return None;
            },
        };
        let items = match json_get(v, "tools") {
            Some(x) => match json_as_array(x) {
                Some(a) => a,
                None => {
                    return None;
                },
            },
            None => {
                return None;
            },
        };
        match read_tools(items) {
            Some(tools) => Some(InitializeResult { name, version, description, tools }),
            None => None,
        }
    }
}


} // verus!
