//! The conversation that is put before the model: role-tagged entries built
//! from a character's profile and a chat's history.
use vstd::prelude::*;
use vstd::string::StringExecFns;
use crate::json::str_equal;
use crate::models::{
    duplicate_tool_calls, option_tool_calls_view, shown_content, Character, CharacterView,
    ChatMessage, ChatMessageView, ToolCall, ToolCallView,
};

verus! {

/// One entry of the conversation, tagged with the role that speaks.
#[derive(Debug, Clone, PartialEq, Eq)]
pub enum ConversationMessage {
    System { content: String },
    User { content: String },
    Assistant { content: Option<String>, tool_calls: Option<Vec<ToolCall>> },
    Tool { content: String, tool_call_id: String },
}

/// An entry of the conversation as a value.
pub enum ConversationView {
    System { content: Seq<char> },
    User { content: Seq<char> },
    Assistant { content: Option<Seq<char>>, tool_calls: Option<Seq<ToolCallView>> },
    Tool { content: Seq<char>, tool_call_id: Seq<char> },
}

impl View for ConversationMessage {
    type V = ConversationView;

    open spec fn view(&self) -> ConversationView {
        match self {
            ConversationMessage::System { content } => ConversationView::System {
                content: content@,
            },
            ConversationMessage::User { content } => ConversationView::User { content: content@ },
            ConversationMessage::Assistant { content, tool_calls } => ConversationView::Assistant {
                content: match content {
                    Some(c) => Some(c@),
                    None => None,
                },
                tool_calls: option_tool_calls_view(*tool_calls),
            },
            ConversationMessage::Tool { content, tool_call_id } => ConversationView::Tool {
                content: content@,
                tool_call_id: tool_call_id@,
            },
        }
    }
}

/// The views of a list of entries, in order.
pub open spec fn conversation_view(entries: Seq<ConversationMessage>) -> Seq<ConversationView> {
    entries.map_values(|e: ConversationMessage| e@)
}

/// The views of a list of chat messages, in order.
pub open spec fn messages_view(messages: Seq<ChatMessage>) -> Seq<ChatMessageView> {
    messages.map_values(|m: ChatMessage| m@)
}

/// A line of the system prompt: the label and the text, or nothing where the
/// text is empty.
pub open spec fn labelled(label: Seq<char>, text: Seq<char>) -> Seq<char> {
    if text.len() == 0 {
        Seq::<char>::empty()
    } else {
        label + text
    }
}

/// The system prompt that presents a character: its name, then each of its
/// other traits that is not empty, one to a line.
pub open spec fn system_prompt(c: CharacterView) -> Seq<char> {
    "Name: "@ + c.name + labelled("\nDescription: "@, c.description) + labelled(
        "\nPersonality: "@,
        c.personality,
    ) + labelled("\nScenario: "@, c.scenario) + labelled(
        "\nExample messages: "@,
        c.example_messages,
    )
}

/// The entry that stands for a chat message, by its role: the content that is
/// shown, for an assistant its tool calls too, for a tool the call that it
/// answers. A message of any other role has no entry.
pub open spec fn entry_of(m: ChatMessageView) -> Option<ConversationView> {
    let content = shown_content(m);
    if m.role == "user"@ {
        Some(ConversationView::User { content })
    } else if m.role == "assistant"@ {
        Some(
            ConversationView::Assistant {
                content: if content.len() == 0 {
                    None
                } else {
                    Some(content)
                },
                tool_calls: m.tool_calls,
            },
        )
    } else if m.role == "tool"@ {
        Some(
            ConversationView::Tool {
                content,
                tool_call_id: match m.tool_call_id {
                    Some(id) => id,
                    None => Seq::<char>::empty(),
                },
            },
        )
    } else if m.role == "system"@ {
        Some(ConversationView::System { content })
    } else {
        None
    }
}

/// The entries for a chat's history, up to and without the message
/// `truncate_at`; the whole history where no such message is named or found.
pub open spec fn history(messages: Seq<ChatMessageView>, truncate_at: Option<u128>) -> Seq<
    ConversationView,
>
    decreases messages.len(),
{
    if messages.len() == 0 || truncate_at == Some(messages[0].id) {
        Seq::<ConversationView>::empty()
    } else {
        match entry_of(messages[0]) {
            Some(e) => seq![e] + history(messages.drop_first(), truncate_at),
            None => history(messages.drop_first(), truncate_at),
        }
    }
}

/// The conversation: the system prompt of the character, where there is one,
/// and then the history.
pub open spec fn conversation_of(
    messages: Seq<ChatMessageView>,
    character: Option<CharacterView>,
    truncate_at: Option<u128>,
) -> Seq<ConversationView> {
    match character {
        Some(c) => seq![ConversationView::System { content: system_prompt(c) }] + history(
            messages,
            truncate_at,
        ),
        None => history(messages, truncate_at),
    }
}

/// Adds a line to the system prompt, unless its text is empty.
fn add_labelled(prompt: &mut String, label: &str, text: &str)
    ensures
        final(prompt)@ == old(prompt)@ + labelled(label@, text@),
{
    if !text.is_empty() {
        prompt.append(label);
        prompt.append(text);
        assert(prompt@ =~= old(prompt)@ + (label@ + text@));
    } else {
        assert(prompt@ =~= old(prompt)@ + Seq::<char>::empty());
    }
}

/// The system prompt that presents a character.
pub fn character_prompt(character: &Character) -> (prompt: String)
    ensures
        prompt@ == system_prompt(character@),
{
    let mut prompt = String::from_str("Name: ");
    prompt.append(character.name.as_str());
    add_labelled(&mut prompt, "\nDescription: ", character.description.as_str());
    add_labelled(&mut prompt, "\nPersonality: ", character.personality.as_str());
    add_labelled(&mut prompt, "\nScenario: ", character.scenario.as_str());
    add_labelled(&mut prompt, "\nExample messages: ", character.example_messages.as_str());
    prompt
}

/// The view of an optional entry.
pub open spec fn option_entry_view(e: Option<ConversationMessage>) -> Option<ConversationView> {
    match e {
        Some(x) => Some(x@),
        None => None,
    }
}

/// The entry that stands for a chat message, if its role has one.
pub fn conversation_entry(message: &ChatMessage) -> (r: Option<ConversationMessage>)
    ensures
        option_entry_view(r) == entry_of(message@),
{
    let content = String::from_str(message.active_content());
    let role = message.role.as_str();
    if str_equal(role, "user") {
        Some(ConversationMessage::User { content })
    } else if str_equal(role, "assistant") {
        let tool_calls = match &message.tool_calls {
            Some(calls) => Some(duplicate_tool_calls(calls)),
            None => None,
        };
        let content = if content.as_str().is_empty() {
            None
        } else {
            Some(content)
        };
        Some(ConversationMessage::Assistant { content, tool_calls })
    } else if str_equal(role, "tool") {
        let tool_call_id = match &message.tool_call_id {
            Some(id) => id.clone(),
            None => String::new(),
        };
        Some(ConversationMessage::Tool { content, tool_call_id })
    } else if str_equal(role, "system") {
        Some(ConversationMessage::System { content })
    } else {
        None
    }
}

/// Builds the conversation for a completion: the system prompt of the
/// character, where there is one, then the chat's messages as entries. Where
/// `truncate_at` names a message, the conversation ends before it.
pub fn build_conversation(
    messages: &Vec<ChatMessage>,
    character: Option<&Character>,
    truncate_at: Option<u128>,
) -> (conversation: Vec<ConversationMessage>)
    ensures
        conversation_view(conversation@) == conversation_of(
            messages_view(messages@),
            match character {
                Some(c) => Some(c@),
                None => None,
            },
            truncate_at,
        ),
{
    let mut conversation: Vec<ConversationMessage> = Vec::new();
    if let Some(c) = character {
        conversation.push(ConversationMessage::System { content: character_prompt(c) });
    }
    let ghost all = messages_view(messages@);
    let ghost target = conversation_of(
        all,
        match character {
            Some(c) => Some(c@),
            None => None,
        },
        truncate_at,
    );
    let mut i: usize = 0;
    proof {
        assert(all.skip(0) =~= all);
        assert(conversation_view(conversation@) + history(all, truncate_at) =~= target);
    }
    while i < messages.len()
        invariant
            i <= messages@.len(),
            all == messages_view(messages@),
            target == conversation_of(
                all,
                match character {
                    Some(c) => Some(c@),
                    None => None,
                },
                truncate_at,
            ),
            conversation_view(conversation@) + history(all.skip(i as int), truncate_at) == target,
        decreases messages@.len() - i,
    {
        let ghost rest = all.skip(i as int);
        let ghost built = conversation_view(conversation@);
        proof {
            assert(rest[0] == messages@[i as int]@);
            assert(rest.drop_first() =~= all.skip(i as int + 1));
        }
        let stop = match truncate_at {
            Some(id) => messages[i].id == id,
            None => false,
        };
        if stop {
            assert(history(rest, truncate_at) =~= Seq::<ConversationView>::empty());
            assert(built + Seq::<ConversationView>::empty() =~= built);
            return conversation;
        }
        match conversation_entry(&messages[i]) {
            Some(entry) => {
                conversation.push(entry);
                proof {
                    let e = entry_of(rest[0]).unwrap();
                    assert(conversation_view(conversation@) =~= built.push(e));
                    assert(built.push(e) + history(rest.drop_first(), truncate_at) =~= built + (
                    seq![e] + history(rest.drop_first(), truncate_at)));
                }
            },
            None => {},
        }
        i += 1;
    }
    proof {
        assert(history(all.skip(i as int), truncate_at) =~= Seq::<ConversationView>::empty());
        assert(conversation_view(conversation@) + Seq::<ConversationView>::empty()
            =~= conversation_view(conversation@));
    }
    conversation
}

/// Why a completion cannot start.
#[derive(Debug, Clone, Copy, PartialEq, Eq)]
pub enum RequestError {
    /// A regeneration that names no message.
    MissingMessageId,
    /// A regeneration of a message that the chat does not hold.
    MessageNotFound,
}

/// Whether a message with this identifier is among `messages`.
pub open spec fn holds_message(messages: Seq<ChatMessageView>, id: u128) -> bool {
    exists|i: int| 0 <= i < messages.len() && (#[trigger] messages[i]).id == id
}

/// Where the conversation is cut for a request: nowhere for a plain
/// completion, before the named message for a regeneration. A regeneration
/// must name a message, and the chat must hold it.
pub open spec fn cut_for(regenerate: bool, message_id: Option<u128>, messages: Seq<ChatMessageView>)
    -> Result<Option<u128>, RequestError> {
    if !regenerate {
        Ok(None)
    } else {
        match message_id {
            None => Err(RequestError::MissingMessageId),
            Some(id) => if holds_message(messages, id) {
                Ok(Some(id))
            } else {
                Err(RequestError::MessageNotFound)
            },
        }
    }
}

/// Decides where the conversation is cut for a request.
pub fn truncation_point(regenerate: bool, message_id: Option<u128>, messages: &Vec<ChatMessage>) -> (r:
    Result<Option<u128>, RequestError>)
    ensures
        r == cut_for(regenerate, message_id, messages_view(messages@)),
{
    if !regenerate {
        return Ok(None);
    }
    let id = match message_id {
        Some(id) => id,
        None => {
            return Err(RequestError::MissingMessageId);
        },
    };
    let mut i: usize = 0;
    while i < messages.len()
        invariant
            i <= messages@.len(),
            regenerate,
            message_id == Some(id),
            forall|k: int| 0 <= k < i ==> (#[trigger] messages_view(messages@)[k]).id != id,
        decreases messages@.len() - i,
    {
        if messages[i].id == id {
            assert(messages_view(messages@)[i as int].id == id);
            assert(holds_message(messages_view(messages@), id));
            return Ok(Some(id));
        }
        i += 1;
    }
    Err(RequestError::MessageNotFound)
}

} // verus!
