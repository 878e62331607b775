//! The records that the host shares with its clients.
use vstd::prelude::*;
use vstd::string::StringExecFns;
use crate::ids::fresh_id;
use crate::json::{
    json_array, json_get, json_model, json_object_insert, json_object_new, json_string, member,
    models_of, read_string, string_member, JsonModel,
};

verus! {

/// The role of what the user writes.
pub const ROLE_USER: &'static str = "user";

/// The role of what the model writes.
pub const ROLE_ASSISTANT: &'static str = "assistant";

/// The role of instructions to the model.
pub const ROLE_SYSTEM: &'static str = "system";

/// The role of a tool's result.
pub const ROLE_TOOL: &'static str = "tool";

/// One capability of a plugin: its name, what it does, and the JSON schema of
/// its arguments.
#[derive(Debug, Clone, PartialEq)]
pub struct Tool {
    pub name: String,
    pub description: String,
    pub parameters: serde_json::Value,
}

/// A tool as a value.
pub struct ToolView {
    pub name: Seq<char>,
    pub description: Seq<char>,
    pub parameters: JsonModel,
}

impl View for Tool {
    type V = ToolView;

    open spec fn view(&self) -> ToolView {
        ToolView {
            name: self.name@,
            description: self.description@,
            parameters: json_model(self.parameters),
        }
    }
}

/// The views of a list of tools, in order.
pub open spec fn tools_view(tools: Seq<Tool>) -> Seq<ToolView> {
    tools.map_values(|t: Tool| t@)
}

/// The document written for a tool.
pub open spec fn tool_model(t: ToolView) -> JsonModel {
    JsonModel::Object(
        Map::<Seq<char>, JsonModel>::empty().insert("name"@, JsonModel::Str(t.name)).insert(
            "description"@,
            JsonModel::Str(t.description),
        ).insert("parameters"@, t.parameters),
    )
}

/// The tool that a document stands for, if it stands for one: a string `name`,
/// a string `description`, and `parameters` of any kind.
pub open spec fn tool_of_model(m: JsonModel) -> Option<ToolView> {
    match (string_member(m, "name"@), string_member(m, "description"@), member(m, "parameters"@)) {
        (Some(name), Some(description), Some(parameters)) => Some(
            ToolView { name, description, parameters },
        ),
        _ => None,
    }
}

/// The view of an optional tool.
pub open spec fn option_tool_view(t: Option<Tool>) -> Option<ToolView> {
    match t {
        Some(x) => Some(x@),
        None => None,
    }
}

impl Tool {
    /// A copy of the tool.
    pub fn duplicate(&self) -> (r: Tool)
        ensures
            r@ == self@,
    {
        Tool {
            name: self.name.clone(),
            description: self.description.clone(),
            parameters: self.parameters.clone(),
        }
    }

    /// The tool as a document.
    pub fn to_json(&self) -> (v: serde_json::Value)
        ensures
            json_model(v) == tool_model(self@),
    {
        let mut obj = json_object_new();
        json_object_insert(&mut obj, "name", json_string(self.name.as_str()));
        json_object_insert(&mut obj, "description", json_string(self.description.as_str()));
        json_object_insert(&mut obj, "parameters", self.parameters.clone());
        obj
    }

    /// Reads a tool from a document.
    pub fn from_json(v: &serde_json::Value) -> (r: Option<Tool>)
        ensures
            option_tool_view(r) == tool_of_model(json_model(*v)),
    {
        let name = match read_string(v, "name") {
            Some(s) => s,
            None => {
                return None;
            },
        };
        let description = match read_string(v, "description") {
            Some(s) => s,
            None => {
                return None;
            },
        };
        match json_get(v, "parameters") {
            Some(p) => Some(Tool { name, description, parameters: p.clone() }),
            None => None,
        }
    }
}

/// Copies a list of tools.
pub fn duplicate_tools(tools: &Vec<Tool>) -> (r: Vec<Tool>)
    ensures
        tools_view(r@) == tools_view(tools@),
{
    let mut out: Vec<Tool> = Vec::new();
    let mut i: usize = 0;
    while i < tools.len()
        invariant
            i <= tools.len(),
            out@.len() == i,
            forall|k: int| 0 <= k < i ==> (#[trigger] out@[k])@ == tools@[k]@,
        decreases tools.len() - i,
    {
        out.push(tools[i].duplicate());
        i += 1;
    }
    assert(tools_view(out@) =~= tools_view(tools@));
    out
}

/// What a plugin says of itself at the handshake, and whether the operator has
/// it enabled.
#[derive(Debug, Clone, PartialEq)]
pub struct PluginManifest {
    pub name: String,
    pub description: String,
    pub version: String,
    pub enabled: bool,
    pub tools: Vec<Tool>,
}

/// A manifest as a value.
pub struct ManifestView {
    pub name: Seq<char>,
    pub description: Seq<char>,
    pub version: Seq<char>,
    pub enabled: bool,
    pub tools: Seq<ToolView>,
}

impl View for PluginManifest {
    type V = ManifestView;

    open spec fn view(&self) -> ManifestView {
        ManifestView {
            name: self.name@,
            description: self.description@,
            version: self.version@,
            enabled: self.enabled,
            tools: tools_view(self.tools@),
        }
    }
}

impl PluginManifest {
    /// A copy of the manifest.
    pub fn duplicate(&self) -> (r: PluginManifest)
        ensures
            r@ == self@,
    {
        PluginManifest {
            name: self.name.clone(),
            description: self.description.clone(),
            version: self.version.clone(),
            enabled: self.enabled,
            tools: duplicate_tools(&self.tools),
        }
    }
}

/// The function that a tool call names, and its arguments as JSON text.
#[derive(Debug, Clone, PartialEq, Eq)]
pub struct FunctionCall {
    pub name: String,
    pub arguments: String,
}

/// A call of a tool that the model has asked for.
#[derive(Debug, Clone, PartialEq, Eq)]
pub struct ToolCall {
    pub id: String,
    /// The kind of the call, `function` as a rule.
    pub kind: String,
    pub function: FunctionCall,
}

/// A tool call as a value.
pub struct ToolCallView {
    pub id: Seq<char>,
    pub kind: Seq<char>,
    pub name: Seq<char>,
    pub arguments: Seq<char>,
}

impl View for ToolCall {
    type V = ToolCallView;

    open spec fn view(&self) -> ToolCallView {
        ToolCallView {
            id: self.id@,
            kind: self.kind@,
            name: self.function.name@,
            arguments: self.function.arguments@,
        }
    }
}

/// The views of a list of tool calls, in order.
pub open spec fn tool_calls_view(calls: Seq<ToolCall>) -> Seq<ToolCallView> {
    calls.map_values(|c: ToolCall| c@)
}

/// The views of an optional list of tool calls.
pub open spec fn option_tool_calls_view(calls: Option<Vec<ToolCall>>) -> Option<Seq<ToolCallView>> {
    match calls {
        Some(cs) => Some(tool_calls_view(cs@)),
        None => None,
    }
}

/// The characters of an optional text.
pub open spec fn option_text(s: Option<String>) -> Option<Seq<char>> {
    match s {
        Some(x) => Some(x@),
        None => None,
    }
}

/// The views of a list of texts, in order.
pub open spec fn texts_view(texts: Seq<String>) -> Seq<Seq<char>> {
    texts.map_values(|s: String| s@)
}

/// The document written for a tool call.
pub open spec fn tool_call_model(c: ToolCallView) -> JsonModel {
    JsonModel::Object(
        Map::<Seq<char>, JsonModel>::empty().insert("id"@, JsonModel::Str(c.id)).insert(
            "type"@,
            JsonModel::Str(c.kind),
        ).insert(
            "function"@,
            JsonModel::Object(
                Map::<Seq<char>, JsonModel>::empty().insert("name"@, JsonModel::Str(c.name)).insert(
                    "arguments"@,
                    JsonModel::Str(c.arguments),
                ),
            ),
        ),
    )
}

/// The documents written for a list of tool calls, in order.
pub open spec fn tool_call_models(calls: Seq<ToolCallView>) -> Seq<JsonModel> {
    calls.map_values(|c: ToolCallView| tool_call_model(c))
}

impl ToolCall {
    /// The call as a document.
    pub fn to_json(&self) -> (v: serde_json::Value)
        ensures
            json_model(v) == tool_call_model(self@),
    {
        let mut function = json_object_new();
        json_object_insert(&mut function, "name", json_string(self.function.name.as_str()));
        json_object_insert(
            &mut function,
            "arguments",
            json_string(self.function.arguments.as_str()),
        );
        let mut obj = json_object_new();
        json_object_insert(&mut obj, "id", json_string(self.id.as_str()));
        json_object_insert(&mut obj, "type", json_string(self.kind.as_str()));
        json_object_insert(&mut obj, "function", function);
        obj
    }

    /// A copy of the call.
    pub fn duplicate(&self) -> (r: ToolCall)
        ensures
            r@ == self@,
    {
        ToolCall {
            id: self.id.clone(),
            kind: self.kind.clone(),
            function: FunctionCall {
                name: self.function.name.clone(),
                arguments: self.function.arguments.clone(),
            },
        }
    }
}

/// Copies a list of tool calls.
pub fn duplicate_tool_calls(calls: &Vec<ToolCall>) -> (r: Vec<ToolCall>)
    ensures
        tool_calls_view(r@) == tool_calls_view(calls@),
{
    let mut out: Vec<ToolCall> = Vec::new();
    let mut i: usize = 0;
    while i < calls.len()
        invariant
            i <= calls.len(),
            out@.len() == i,
            forall|k: int| 0 <= k < i ==> (#[trigger] out@[k])@ == calls@[k]@,
        decreases calls.len() - i,
    {
        out.push(calls[i].duplicate());
        i += 1;
    }
    assert(tool_calls_view(out@) =~= tool_calls_view(calls@));
    out
}

/// A list of tool calls as one document, an array.
pub fn tool_calls_to_json(calls: &Vec<ToolCall>) -> (v: serde_json::Value)
    ensures
        json_model(v) == JsonModel::Array(tool_call_models(tool_calls_view(calls@))),
{
    let mut items: Vec<serde_json::Value> = Vec::new();
    let mut i: usize = 0;
    while i < calls.len()
        invariant
            i <= calls.len(),
            items@.len() == i,
            forall|k: int| 0 <= k < i ==> json_model(#[trigger] items@[k]) == tool_call_model(
                calls@[k]@,
            ),
        decreases calls.len() - i,
    {
        items.push(calls[i].to_json());
        i += 1;
    }
    assert(models_of(items@) =~= tool_call_models(tool_calls_view(calls@)));
    json_array(items)
}

/// One message of a chat.
#[derive(Debug, Clone, PartialEq, Eq)]
pub struct ChatMessage {
    pub id: u128,
    /// `user`, `assistant`, `system` or `tool`.
    pub role: String,
    pub content: String,
    /// In a group chat, the character that sent the message.
    pub sender_id: Option<u128>,
    /// Other versions of the content.
    pub alternatives: Vec<String>,
    /// The version that is shown: 0 for the content itself, `n` for the
    /// alternative number `n`, counted from 1.
    pub active_index: usize,
    /// The tool calls that an assistant message asks for.
    pub tool_calls: Option<Vec<ToolCall>>,
    /// On the message that carries a tool's result, the call that it answers.
    pub tool_call_id: Option<String>,
}

/// A chat message as a value.
pub struct ChatMessageView {
    pub id: u128,
    pub role: Seq<char>,
    pub content: Seq<char>,
    pub sender_id: Option<u128>,
    pub alternatives: Seq<Seq<char>>,
    pub active_index: usize,
    pub tool_calls: Option<Seq<ToolCallView>>,
    pub tool_call_id: Option<Seq<char>>,
}

impl View for ChatMessage {
    type V = ChatMessageView;

    open spec fn view(&self) -> ChatMessageView {
        ChatMessageView {
            id: self.id,
            role: self.role@,
            content: self.content@,
            sender_id: self.sender_id,
            alternatives: texts_view(self.alternatives@),
            active_index: self.active_index,
            tool_calls: option_tool_calls_view(self.tool_calls),
            tool_call_id: option_text(self.tool_call_id),
        }
    }
}

/// A message that has just been written: no alternatives, no tool calls.
pub open spec fn plain_message(
    id: u128,
    role: Seq<char>,
    content: Seq<char>,
    sender_id: Option<u128>,
) -> ChatMessageView {
    ChatMessageView {
        id,
        role,
        content,
        sender_id,
        alternatives: Seq::<Seq<char>>::empty(),
        active_index: 0,
        tool_calls: None,
        tool_call_id: None,
    }
}

/// The content that is shown: the alternative that `active_index` picks, or
/// the primary content where it picks none.
pub open spec fn shown_content(m: ChatMessageView) -> Seq<char> {
    if 1 <= m.active_index <= m.alternatives.len() {
        m.alternatives[m.active_index - 1]
    } else {
        m.content
    }
}

/// The version that a swipe leads to, from the version `active` of a message
/// with `alternatives` alternatives.
pub open spec fn swiped(active: int, alternatives: int, direction: SwipeDirection) -> int {
    match direction {
        SwipeDirection::Left => if active <= 0 {
            0
        } else {
            active - 1
        },
        SwipeDirection::Right => if active + 1 <= alternatives {
            active + 1
        } else {
            alternatives
        },
    }
}

impl ChatMessage {
    /// A message under the given identifier, without alternatives.
    pub fn with_id(id: u128, role: &str, content: &str, sender_id: Option<u128>) -> (m: ChatMessage)
        ensures
            m@ == plain_message(id, role@, content@, sender_id),
    {
        let m = ChatMessage {
            id,
            role: String::from_str(role),
            content: String::from_str(content),
            sender_id,
            alternatives: Vec::new(),
            active_index: 0,
            tool_calls: None,
            tool_call_id: None,
        };
        assert(m@.alternatives =~= Seq::<Seq<char>>::empty());
        m
    }

    /// A message under a fresh identifier, without alternatives.
    pub fn new(role: &str, content: &str) -> (m: ChatMessage)
        ensures
            m@ == plain_message(m.id, role@, content@, None),
    {
        ChatMessage::with_id(fresh_id(), role, content, None)
    }

    /// A message from one sender of a group chat, under a fresh identifier.
    pub fn new_from_sender(role: &str, content: &str, sender_id: u128) -> (m: ChatMessage)
        ensures
            m@ == plain_message(m.id, role@, content@, Some(sender_id)),
    {
        ChatMessage::with_id(fresh_id(), role, content, Some(sender_id))
    }

    /// The content that is shown, alternatives considered.
    pub fn active_content(&self) -> (r: &str)
        ensures
            r@ == shown_content(self@),
    {
        if self.active_index == 0 || self.active_index > self.alternatives.len() {
            self.content.as_str()
        } else {
            self.alternatives[self.active_index - 1].as_str()
        }
    }

    /// Adds a version of the content and shows it.
    pub fn append_alternative(&mut self, content: String)
        requires
            old(self).alternatives@.len() < usize::MAX,
        ensures
            final(self)@ == (ChatMessageView {
                alternatives: old(self)@.alternatives.push(content@),
                active_index: (old(self)@.alternatives.len() + 1) as usize,
                ..old(self)@
            }),
    {
        self.alternatives.push(content);
        self.active_index = self.alternatives.len();
        assert(self@.alternatives =~= old(self)@.alternatives.push(content@));
    }

    /// Shows the version number `index`, where the message has one; changes
    /// nothing where it has none.
    pub fn set_active_alternative(&mut self, index: usize)
        ensures
            final(self)@ == (ChatMessageView {
                active_index: if index <= old(self)@.alternatives.len() {
                    index
                } else {
                    old(self)@.active_index
                },
                ..old(self)@
            }),
    {
        if index <= self.alternatives.len() {
            self.active_index = index;
        }
    }

    /// The version that a swipe leads to: one back for a swipe to the left,
    /// but not before the primary content; one on for a swipe to the right,
    /// but not past the last alternative.
    pub fn swipe_target(&self, direction: SwipeDirection) -> (index: usize)
        ensures
            index == swiped(self@.active_index as int, self@.alternatives.len() as int, direction),
    {
        match direction {
            SwipeDirection::Left => if self.active_index == 0 {
                0
            } else {
                self.active_index - 1
            },
            SwipeDirection::Right => if self.active_index >= self.alternatives.len() {
                self.alternatives.len()
            } else {
                self.active_index + 1
            },
        }
    }

    /// How many versions the message has: the primary content and the
    /// alternatives.
    pub fn variant_count(&self) -> (n: usize)
        requires
            self.alternatives@.len() < usize::MAX,
        ensures
            n == 1 + self@.alternatives.len(),
    {
        1 + self.alternatives.len()
    }
}

/// A character that the model plays.
#[derive(Debug, Clone, PartialEq, Eq)]
pub struct Character {
    pub id: u128,
    pub name: String,
    pub description: String,
    pub personality: String,
    pub scenario: String,
    pub first_message: String,
    pub example_messages: String,
}

/// A character as a value.
pub struct CharacterView {
    pub id: u128,
    pub name: Seq<char>,
    pub description: Seq<char>,
    pub personality: Seq<char>,
    pub scenario: Seq<char>,
    pub first_message: Seq<char>,
    pub example_messages: Seq<char>,
}

impl View for Character {
    type V = CharacterView;

    open spec fn view(&self) -> CharacterView {
        CharacterView {
            id: self.id,
            name: self.name@,
            description: self.description@,
            personality: self.personality@,
            scenario: self.scenario@,
            first_message: self.first_message@,
            example_messages: self.example_messages@,
        }
    }
}

/// What a client sends to create a character.
#[derive(Debug, Clone, PartialEq, Eq)]
pub struct CreateCharacterRequest {
    pub name: String,
    pub description: String,
    pub personality: String,
    pub scenario: String,
    pub first_message: String,
    pub example_messages: String,
}

/// A character that takes part in a chat.
#[derive(Debug, Clone, PartialEq, Eq)]
pub struct ChatParticipant {
    pub character_id: u128,
    /// Whether the character takes turns in a group chat.
    pub is_active: bool,
}

/// A chat: its character, its messages in order, and who takes part.
#[derive(Debug, Clone, PartialEq, Eq)]
pub struct Chat {
    pub id: u128,
    pub character_id: u128,
    pub messages: Vec<ChatMessage>,
    pub participants: Vec<ChatParticipant>,
}

/// What a client sends to create a chat.
#[derive(Debug, Clone, PartialEq, Eq)]
pub struct CreateChatRequest {
    pub character_id: u128,
}

/// What a client sends to rewrite a message.
#[derive(Debug, Clone, PartialEq, Eq)]
pub struct EditMessageRequest {
    pub content: String,
}

/// The direction in which a client moves through the versions of a message.
#[derive(Debug, Clone, Copy, PartialEq, Eq)]
pub enum SwipeDirection {
    /// To the previous version.
    Left,
    /// To the next version.
    Right,
}

/// What a client sends to show another version of a message.
#[derive(Debug, Clone, PartialEq, Eq)]
pub struct SwipeRequest {
    pub direction: SwipeDirection,
}

/// Where the chats are kept.
#[derive(Debug, Clone, PartialEq, Eq)]
pub enum DatabaseConfig {
    Local { url: String },
    Postgres { url: String },
}

} // verus!
