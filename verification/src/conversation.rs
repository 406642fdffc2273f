//! The conversation values that structured-output admission reads: message roles,
//! messages, provider tool calls, provider responses and usage.

use vstd::prelude::*;

verus! {

/// Who authored a message.
#[derive(Clone, Copy, Debug, PartialEq, Eq)]
pub enum Role {
    System,
    User,
    Assistant,
    Tool,
}

/// One tool call returned by a provider: its provider-assigned id, the tool name,
/// and the raw JSON argument text.
#[derive(Clone, Debug)]
pub struct ToolCallRequest {
    pub id: String,
    pub name: String,
    pub arguments: String,
}

/// One conversation message handed to a provider.
#[derive(Clone, Debug)]
pub struct Message {
    pub role: Role,
    pub content: String,
    pub tool_call_id: Option<String>,
    pub tool_name: Option<String>,
    pub tool_calls: Option<Vec<ToolCallRequest>>,
}

/// What one provider completion returned.
#[derive(Clone, Debug)]
pub enum LlmResponse {
    ToolCalls(Vec<ToolCallRequest>),
    Text(String),
    Empty,
}

/// Provider-reported token usage.
#[derive(Clone, Copy, Debug, PartialEq, Eq)]
pub struct Usage {
    pub input_tokens: u64,
    pub output_tokens: u64,
}

/// A message with the given role and content and no tool metadata.
pub open spec fn is_plain_message(m: Message, role: Role, content: Seq<char>) -> bool {
    &&& m.role == role
    &&& m.content@ == content
    &&& m.tool_call_id is None
    &&& m.tool_name is None
    &&& m.tool_calls is None
}

/// The two-message system + user conversation used for a bounded structured call.
pub fn prompt_messages(system_prompt: &str, user_prompt: &str) -> (messages: Vec<Message>)
    ensures
        messages@.len() == 2,
        is_plain_message(messages@[0], Role::System, system_prompt@),
        is_plain_message(messages@[1], Role::User, user_prompt@),
{
    let mut messages: Vec<Message> = Vec::new();
    messages.push(Message {
        role: Role::System,
        content: system_prompt.to_owned(),
        tool_call_id: None,
        tool_name: None,
        tool_calls: None,
    });
    messages.push(Message {
        role: Role::User,
        content: user_prompt.to_owned(),
        tool_call_id: None,
        tool_name: None,
        tool_calls: None,
    });
    messages
}

} // verus!
