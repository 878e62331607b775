//! One completion request, turn by turn.
//!
//! A turn puts the conversation before the model and reads its stream. Text is
//! passed on at once; pieces of tool calls are collected. A stream that ends
//! without tool calls ends the request. One that ends with tool calls has them
//! carried out, one after the other in the order of their indices, and the
//! conversation, grown by the calls and their results, goes into the next
//! turn. There are at most five turns.
//!
//! The orchestrator decides and keeps the books. The runner talks to the
//! model, to the plugins and to the store, and passes on the events.
use vstd::prelude::*;
use vstd::string::StringExecFns;
use crate::conversation::{conversation_view, ConversationMessage, ConversationView};
use crate::error::{error_text, join, PluginError, PluginErrorView};
use crate::fragments::{
    absorb_all, absorb_delta, ascending, deltas_view, fragments_view, lemma_absorb_all_ascending,
    materialize, materialized_all, text_or_empty, FragmentView, ToolCallDelta,
    ToolCallFragment, DeltaView,
};
use crate::json::{
    json_from_text, json_model, json_object_insert, json_object_new, json_parse, json_string,
    json_text, json_to_text, str_equal, JsonModel,
};
use crate::models::{
    duplicate_tool_calls, option_text, plain_message, tool_call_models, tool_calls_to_json, tool_calls_view,
    ChatMessage, ChatMessageView, ToolCall, ToolCallView,
};

verus! {

/// The most turns that one request may take.
pub const MAX_TURNS: u32 = 5;

/// The service that is asked where a request names none.
pub const DEFAULT_API_BASE: &'static str = "https://openrouter.ai/api/v1";

/// The most tokens that the model may answer with where a request sets no
/// limit.
pub const DEFAULT_MAX_TOKENS: u16 = 4096;

/// What the model's stream delivers at one step: text, pieces of tool calls,
/// or both.
#[derive(Debug, Clone, PartialEq, Eq)]
pub struct StreamDelta {
    pub content: Option<String>,
    pub tool_calls: Vec<ToolCallDelta>,
}

/// What is written to the store at the end of a request.
#[derive(Debug, Clone, PartialEq, Eq)]
pub enum SaveAction {
    /// A new message at the end of the chat.
    Message(ChatMessage),
    /// A new alternative of the message that is regenerated.
    Alternative { message_id: u128, content: String },
}

/// How a turn has ended.
#[derive(Debug, Clone, PartialEq, Eq)]
pub enum TurnEnd {
    /// The model has asked for no tool: the request is over. The runner
    /// writes what `save` says, if it says anything, and passes on the event.
    Finished { save: Option<SaveAction>, event: String },
    /// The model has asked for tools. The runner passes on the event, writes
    /// the message to the store, and carries out the calls in their order.
    ToolCalls { calls: Vec<ToolCall>, message: ChatMessage, event: String },
}

/// What a tool call has come to: the message that records it, and the event
/// that tells the client.
#[derive(Debug, Clone, PartialEq, Eq)]
pub struct ToolRecord {
    pub message: ChatMessage,
    pub event: String,
}

/// What is to be done with a tool call.
#[derive(Debug, Clone, PartialEq)]
pub enum ToolStep {
    /// Call the tool with these arguments, then report the outcome.
    Invoke { name: String, arguments: serde_json::Value },
    /// The arguments are no JSON: the call is settled without the tool, by a
    /// record of the failure.
    Settled(ToolRecord),
}

/// What goes wrong around a turn, outside the orchestrator's own doing.
#[derive(Debug, Clone, Copy, PartialEq, Eq)]
pub enum Failure {
    /// The completion request could not be put together.
    BuildRequest,
    /// The model's service refused the request.
    Service,
    /// The stream broke at one step.
    Stream,
    /// The assistant's message with its tool calls could not be stored.
    SaveToolCalls,
    /// The final answer could not be stored.
    SaveResponse,
}

/// How much the model is asked to reason.
#[derive(Debug, Clone, Copy, PartialEq, Eq)]
pub enum ReasoningEffort {
    Low,
    Medium,
    High,
    /// No reasoning at all, named `none` in the settings.
    Off,
}

/// The effort that a setting names; `Medium` for any text that names none.
pub open spec fn effort_of(setting: Seq<char>) -> ReasoningEffort {
    if setting == "low"@ {
        ReasoningEffort::Low
    } else if setting == "medium"@ {
        ReasoningEffort::Medium
    } else if setting == "high"@ {
        ReasoningEffort::High
    } else if setting == "none"@ {
        ReasoningEffort::Off
    } else {
        ReasoningEffort::Medium
    }
}

/// Reads the reasoning effort from its setting.
pub fn reasoning_effort(setting: &str) -> (r: ReasoningEffort)
    ensures
        r == effort_of(setting@),
{
    if str_equal(setting, "low") {
        ReasoningEffort::Low
    } else if str_equal(setting, "medium") {
        ReasoningEffort::Medium
    } else if str_equal(setting, "high") {
        ReasoningEffort::High
    } else if str_equal(setting, "none") {
        ReasoningEffort::Off
    } else {
        ReasoningEffort::Medium
    }
}

/// An event on the wire to the client: the payload between `data: ` and an
/// empty line.
pub open spec fn event_text(payload: Seq<char>) -> Seq<char> {
    "data: "@ + payload + "\n\n"@
}

/// The event that carries a piece of text: the text as a JSON string.
pub open spec fn content_event(content: Seq<char>) -> Seq<char> {
    event_text(json_text(JsonModel::Str(content)))
}

/// The event that ends a request.
pub open spec fn done_event() -> Seq<char> {
    event_text("[DONE]"@)
}

/// The event that shows the tool calls of a turn.
pub open spec fn tool_calls_event(calls: Seq<ToolCallView>) -> Seq<char> {
    event_text("[TOOL_CALLS] "@ + json_text(JsonModel::Array(tool_call_models(calls))))
}

/// The document that tells what a tool call has come to: its identifier, and
/// the content under `result`, or under `error` where the call failed.
pub open spec fn outcome_model(id: Seq<char>, content: Seq<char>, failed: bool) -> JsonModel {
    JsonModel::Object(
        Map::<Seq<char>, JsonModel>::empty().insert("id"@, JsonModel::Str(id)).insert(
            if failed {
                "error"@
            } else {
                "result"@
            },
            JsonModel::Str(content),
        ),
    )
}

/// The event that tells what a tool call has come to.
pub open spec fn tool_result_event(id: Seq<char>, content: Seq<char>, failed: bool) -> Seq<char> {
    event_text("[TOOL_RESULT] "@ + json_text(outcome_model(id, content, failed)))
}

/// What is said before the details of a failure.
pub open spec fn failure_prefix(kind: Failure) -> Seq<char> {
    match kind {
        Failure::BuildRequest => "Failed to build completion request: "@,
        Failure::Service => "OpenAI Error: "@,
        Failure::Stream => ""@,
        Failure::SaveToolCalls => "Failed to save tool calls: "@,
        Failure::SaveResponse => "Failed to save response: "@,
    }
}

/// The event that reports a failure.
pub open spec fn failure_event(kind: Failure, detail: Seq<char>) -> Seq<char> {
    event_text("[ERROR] "@ + (failure_prefix(kind) + detail))
}

/// The message that records a tool call: of the role `tool`, tagged with the
/// call that it answers.
pub open spec fn tool_message(id: u128, content: Seq<char>, call_id: Seq<char>) -> ChatMessageView {
    ChatMessageView { tool_call_id: Some(call_id), ..plain_message(id, "tool"@, content, None) }
}

/// The message that records the assistant's turn: what it said, and the tool
/// calls that it asked for.
pub open spec fn assistant_message(id: u128, content: Seq<char>, calls: Seq<ToolCallView>)
    -> ChatMessageView {
    ChatMessageView { tool_calls: Some(calls), ..plain_message(id, "assistant"@, content, None) }
}

/// What a tool call has come to, as text: the result in compact JSON, or an
/// account of the failure.
pub open spec fn outcome_content(outcome: Result<JsonModel, PluginErrorView>) -> Seq<char> {
    match outcome {
        Ok(m) => json_text(m),
        Err(e) => "Error executing tool: "@ + error_text(e),
    }
}

/// Wraps a payload into an event.
fn make_event(payload: &str) -> (event: String)
    ensures
        event@ == event_text(payload@),
{
    let mut event = String::from_str("data: ");
    event.append(payload);
    event.append("\n\n");
    event
}

/// The event that reports a failure, with the runner's account of it.
pub fn report_failure(kind: Failure, detail: &str) -> (event: String)
    ensures
        event@ == failure_event(kind, detail@),
{
    let prefix = match kind {
        Failure::BuildRequest => "Failed to build completion request: ",
        Failure::Service => "OpenAI Error: ",
        Failure::Stream => "",
        Failure::SaveToolCalls => "Failed to save tool calls: ",
        Failure::SaveResponse => "Failed to save response: ",
    };
    let message = join(prefix, detail);
    let payload = join("[ERROR] ", message.as_str());
    make_event(payload.as_str())
}

/// The record of a tool call that has come to `content`.
fn tool_record(call: &ToolCall, content: String, failed: bool) -> (record: ToolRecord)
    ensures
        record.message@ == tool_message(record.message.id, content@, call@.id),
        record.event@ == tool_result_event(call@.id, content@, failed),
{
    let mut obj = json_object_new();
    json_object_insert(&mut obj, "id", json_string(call.id.as_str()));
    if failed {
        json_object_insert(&mut obj, "error", json_string(content.as_str()));
    } else {
        json_object_insert(&mut obj, "result", json_string(content.as_str()));
    }
    let payload = join("[TOOL_RESULT] ", json_to_text(&obj).as_str());
    let event = make_event(payload.as_str());
    let mut message = ChatMessage::new("tool", content.as_str());
    message.tool_call_id = Some(call.id.clone());
    ToolRecord { message, event }
}

/// Copies a conversation.
pub fn duplicate_conversation(entries: &Vec<ConversationMessage>) -> (r: Vec<ConversationMessage>)
    ensures
        conversation_view(r@) == conversation_view(entries@),
{
    let mut out: Vec<ConversationMessage> = Vec::new();
    let mut i: usize = 0;
    while i < entries.len()
        invariant
            i <= entries.len(),
            out@.len() == i,
            forall|k: int| 0 <= k < i ==> (#[trigger] out@[k])@ == entries@[k]@,
        decreases entries.len() - i,
    {
        let copy = match &entries[i] {
            ConversationMessage::System { content } => ConversationMessage::System {
                content: content.clone(),
            },
            ConversationMessage::User { content } => ConversationMessage::User {
                content: content.clone(),
            },
            ConversationMessage::Assistant { content, tool_calls } => {
                ConversationMessage::Assistant {
                    content: match content {
                        Some(c) => Some(c.clone()),
                        None => None,
                    },
                    tool_calls: match tool_calls {
                        Some(calls) => Some(duplicate_tool_calls(calls)),
                        None => None,
                    },
                }
            },
            ConversationMessage::Tool { content, tool_call_id } => ConversationMessage::Tool {
                content: content.clone(),
                tool_call_id: tool_call_id.clone(),
            },
        };
        out.push(copy);
        i += 1;
    }
    assert(conversation_view(out@) =~= conversation_view(entries@));
    out
}

/// The state of one completion request.
pub struct Orchestrator {
    conversation: Vec<ConversationMessage>,
    turn: u32,
    response: String,
    fragments: Vec<ToolCallFragment>,
    regenerate: Option<u128>,
}

/// The state of a request as a value.
pub struct OrchestratorView {
    /// The conversation as it will be put before the model next.
    pub conversation: Seq<ConversationView>,
    /// How many turns have begun.
    pub turn: nat,
    /// The text that the current turn has streamed so far.
    pub response: Seq<char>,
    /// The tool calls that the current turn has collected so far.
    pub fragments: Seq<FragmentView>,
    /// The message that is regenerated, if the request is a regeneration.
    pub regenerate: Option<u128>,
}

impl View for Orchestrator {
    type V = OrchestratorView;

    closed spec fn view(&self) -> OrchestratorView {
        OrchestratorView {
            conversation: conversation_view(self.conversation@),
            turn: self.turn as nat,
            response: self.response@,
            fragments: fragments_view(self.fragments@),
            regenerate: self.regenerate,
        }
    }
}

/// What holds of every request: no more than five turns have begun, and the
/// collected tool calls stand in the order of their indices.
pub open spec fn orderly(v: OrchestratorView) -> bool {
    v.turn <= MAX_TURNS && ascending(v.fragments)
}

/// The state after a step of the stream.
pub open spec fn after_delta(v: OrchestratorView, content: Option<Seq<char>>, pieces: Seq<DeltaView>)
    -> OrchestratorView {
    OrchestratorView {
        response: v.response + text_or_empty(content),
        fragments: absorb_all(v.fragments, pieces),
        ..v
    }
}

/// The state after the end of a stream: as it was where no tool call was
/// collected; grown by the assistant's entry, which carries the tool calls
/// and no text, where some were.
pub open spec fn after_stream(v: OrchestratorView) -> OrchestratorView {
    if v.fragments.len() == 0 {
        v
    } else {
        OrchestratorView {
            conversation: v.conversation.push(
                ConversationView::Assistant {
                    content: None,
                    tool_calls: Some(materialized_all(v.fragments)),
                },
            ),
            ..v
        }
    }
}

/// What is to be stored at the end of a request: nothing for an empty
/// response; for a regeneration, the response as a new alternative of the
/// regenerated message; otherwise the response as a new assistant message.
pub open spec fn saves(v: OrchestratorView, save: Option<SaveAction>) -> bool {
    if v.response.len() == 0 {
        save is None
    } else {
        match v.regenerate {
            Some(id) => save matches Some(SaveAction::Alternative { message_id, content })
                && message_id == id && content@ == v.response,
            None => save matches Some(SaveAction::Message(m)) && m@ == plain_message(
                m.id,
                "assistant"@,
                v.response,
                None,
            ),
        }
    }
}

/// How the turn ends in the state `v`: finished where no tool call was
/// collected, with tool calls where some were. The calls are the collected
/// fragments in the order of their indices; the message to store carries the
/// streamed text and the calls.
pub open spec fn ends_turn(v: OrchestratorView, end: TurnEnd) -> bool {
    if v.fragments.len() == 0 {
        end matches TurnEnd::Finished { save, event } && event@ == done_event() && saves(v, save)
    } else {
        let expected = materialized_all(v.fragments);
        end matches TurnEnd::ToolCalls { calls, message, event } && tool_calls_view(calls@)
            == expected && message@ == assistant_message(message.id, v.response, expected)
            && event@ == tool_calls_event(expected)
    }
}

impl Orchestrator {
    /// A request that has not begun a turn yet.
    pub fn new(conversation: Vec<ConversationMessage>, regenerate: Option<u128>) -> (r:
        Orchestrator)
        ensures
            orderly(r@),
            r@ == (OrchestratorView {
                conversation: conversation_view(conversation@),
                turn: 0,
                response: Seq::<char>::empty(),
                fragments: Seq::<FragmentView>::empty(),
                regenerate,
            }),
    {
        let r = Orchestrator {
            conversation,
            turn: 0,
            response: String::new(),
            fragments: Vec::new(),
            regenerate,
        };
        assert(r@.fragments =~= Seq::<FragmentView>::empty());
        r
    }

    /// How many turns have begun.
    pub fn turns(&self) -> (n: u32)
        ensures
            n == self@.turn,
    {
        self.turn
    }

    /// Begins the next turn and gives the conversation to put before the
    /// model. After five turns there is no next turn: nothing is given, and
    /// nothing changes.
    pub fn begin_turn(&mut self) -> (r: Option<Vec<ConversationMessage>>)
        requires
            orderly(old(self)@),
        ensures
            orderly(final(self)@),
            old(self)@.turn < MAX_TURNS ==> r is Some && conversation_view(r->Some_0@) == old(
                self,
            )@.conversation && final(self)@ == (OrchestratorView {
                turn: old(self)@.turn + 1,
                response: Seq::<char>::empty(),
                fragments: Seq::<FragmentView>::empty(),
                ..old(self)@
            }),
            old(self)@.turn >= MAX_TURNS ==> r is None && final(self)@ == old(self)@,
    {
        if self.turn >= MAX_TURNS {
            return None;
        }
        self.turn = self.turn + 1;
        self.response = String::new();
        self.fragments = Vec::new();
        assert(self@.fragments =~= Seq::<FragmentView>::empty());
        Some(duplicate_conversation(&self.conversation))
    }

    /// Takes one step of the stream. Text is added to the turn's response
    /// and comes back as the event to pass on; pieces of tool calls are
    /// collected and never passed on.
    pub fn on_delta(&mut self, delta: &StreamDelta) -> (event: Option<String>)
        requires
            orderly(old(self)@),
        ensures
            orderly(final(self)@),
            final(self)@ == after_delta(
                old(self)@,
                option_text(delta.content),
                deltas_view(delta.tool_calls@),
            ),
            match delta.content {
                Some(c) => event is Some && event->Some_0@ == content_event(c@),
                None => event is None,
            },
    {
        let event = match &delta.content {
            Some(c) => {
                self.response.append(c.as_str());
                let text = json_to_text(&json_string(c.as_str()));
                Some(make_event(text.as_str()))
            },
            None => {
                assert(self.response@ =~= old(self).response@ + Seq::<char>::empty());
                None
            },
        };
        let ghost pieces = deltas_view(delta.tool_calls@);
        let ghost start = fragments_view(self.fragments@);
        let mut k: usize = 0;
        assert(pieces.take(0) =~= Seq::<DeltaView>::empty());
        while k < delta.tool_calls.len()
            invariant
                k <= delta.tool_calls@.len(),
                pieces == deltas_view(delta.tool_calls@),
                ascending(start),
                fragments_view(self.fragments@) == absorb_all(start, pieces.take(k as int)),
                self.conversation == old(self).conversation,
                self.turn == old(self).turn,
                self.regenerate == old(self).regenerate,
                self.response@ == old(self).response@ + text_or_empty(
                    option_text(delta.content),
                ),
            decreases delta.tool_calls@.len() - k,
        {
            proof {
                lemma_absorb_all_ascending(start, pieces.take(k as int));
                assert(pieces.take(k as int + 1).drop_last() =~= pieces.take(k as int));
                assert(pieces.take(k as int + 1).last() == delta.tool_calls@[k as int]@);
            }
            absorb_delta(&mut self.fragments, &delta.tool_calls[k]);
            k += 1;
        }
        proof {
            assert(pieces.take(k as int) =~= pieces);
            lemma_absorb_all_ascending(start, pieces);
        }
        event
    }

    /// Ends the turn at the end of the stream. Without tool calls the request
    /// is over: the response, unless it is empty, is to be stored, as a new
    /// alternative for a regeneration and as a new message otherwise. With
    /// tool calls the assistant's entry joins the conversation, and the calls
    /// come back in the order of their indices.
    pub fn end_stream(&mut self) -> (end: TurnEnd)
        requires
            orderly(old(self)@),
        ensures
            orderly(final(self)@),
            final(self)@ == after_stream(old(self)@),
            ends_turn(old(self)@, end),
    {
        if self.fragments.len() == 0 {
            let save = if self.response.as_str().is_empty() {
                None
            } else {
                match self.regenerate {
                    Some(message_id) => Some(
                        SaveAction::Alternative { message_id, content: self.response.clone() },
                    ),
                    None => Some(
                        SaveAction::Message(ChatMessage::new("assistant", self.response.as_str())),
                    ),
                }
            };
            return TurnEnd::Finished { save, event: make_event("[DONE]") };
        }
        let calls = materialize(&self.fragments);
        let payload = join("[TOOL_CALLS] ", json_to_text(&tool_calls_to_json(&calls)).as_str());
        let event = make_event(payload.as_str());
        let mut message = ChatMessage::new("assistant", self.response.as_str());
        message.tool_calls = Some(duplicate_tool_calls(&calls));
        self.conversation.push(
            ConversationMessage::Assistant {
                content: None,
                tool_calls: Some(duplicate_tool_calls(&calls)),
            },
        );
        assert(self@.conversation =~= after_stream(old(self)@).conversation);
        TurnEnd::ToolCalls { calls, message, event }
    }

    /// Notes the record of a tool call in the conversation.
    fn note(&mut self, call: &ToolCall, content: &str)
        ensures
            final(self)@ == (OrchestratorView {
                conversation: old(self)@.conversation.push(
                    ConversationView::Tool { content: content@, tool_call_id: call@.id },
                ),
                ..old(self)@
            }),
    {
        self.conversation.push(
            ConversationMessage::Tool {
                content: String::from_str(content),
                tool_call_id: call.id.clone(),
            },
        );
        assert(self@.conversation =~= old(self)@.conversation.push(
            ConversationView::Tool { content: content@, tool_call_id: call@.id },
        ));
    }

    /// Decides what is to be done with a tool call. Arguments that are JSON
    /// go to the tool. Arguments that are not are no reason to end the turn:
    /// the call is settled by a record of the parse error, which joins the
    /// conversation like any tool result.
    pub fn prepare_tool(&mut self, call: &ToolCall) -> (step: ToolStep)
        requires
            orderly(old(self)@),
        ensures
            orderly(final(self)@),
            match json_parse(call@.arguments) {
                Ok(m) => final(self)@ == old(self)@ && (step matches ToolStep::Invoke {
                    name,
                    arguments,
                } && name@ == call@.name && json_model(arguments) == m),
                Err(e) => {
                    let content = "Error parsing arguments: "@ + e;
                    &&& step matches ToolStep::Settled(record)
                    &&& record.message@ == tool_message(record.message.id, content, call@.id)
                    &&& record.event@ == tool_result_event(call@.id, content, true)
                    &&& final(self)@ == (OrchestratorView {
                        conversation: old(self)@.conversation.push(
                            ConversationView::Tool { content, tool_call_id: call@.id },
                        ),
                        ..old(self)@
                    })
                },
            },
    {
        match json_from_text(call.function.arguments.as_str()) {
            Ok(arguments) => ToolStep::Invoke { name: call.function.name.clone(), arguments },
            Err(e) => {
                let content = join("Error parsing arguments: ", e.as_str());
                self.note(call, content.as_str());
                ToolStep::Settled(tool_record(call, content, true))
            },
        }
    }

    /// Takes the outcome of a tool call: the result or the failure becomes a
    /// record, which joins the conversation. A failed call does not end the
    /// turn.
    pub fn finish_tool(&mut self, call: &ToolCall, outcome: Result<serde_json::Value, PluginError>)
        -> (record: ToolRecord)
        requires
            orderly(old(self)@),
        ensures
            orderly(final(self)@),
            ({
                let content = outcome_content(
                    match outcome {
                        Ok(v) => Ok(json_model(v)),
                        Err(e) => Err(e@),
                    },
                );
                &&& record.message@ == tool_message(record.message.id, content, call@.id)
                &&& record.event@ == tool_result_event(call@.id, content, outcome is Err)
                &&& final(self)@ == (OrchestratorView {
                    conversation: old(self)@.conversation.push(
                        ConversationView::Tool { content, tool_call_id: call@.id },
                    ),
                    ..old(self)@
                })
            }),
    {
        match outcome {
            Ok(value) => {
                let content = json_to_text(&value);
                self.note(call, content.as_str());
                tool_record(call, content, false)
            },
            Err(e) => {
                let content = join("Error executing tool: ", e.message().as_str());
                self.note(call, content.as_str());
                tool_record(call, content, true)
            },
        }
    }
}

} // verus!
