//! The data of a chat completion, and how a request for one is addressed.

use vstd::prelude::*;
use vstd::string::*;
use crate::text::join2;

verus! {

/// Who speaks in a chat message.
#[derive(Debug, Clone, Copy, PartialEq, Eq, Structural)]
pub enum ChatRole {
    System,
    User,
    Assistant,
    Function,
}

/// The name under which a role is written in a request.
pub open spec fn chat_role_name(role: ChatRole) -> Seq<char> {
    match role {
        ChatRole::System => "system"@,
        ChatRole::User => "user"@,
        ChatRole::Assistant => "assistant"@,
        ChatRole::Function => "function"@,
    }
}

impl ChatRole {
    /// The name of this role.
    pub fn name(&self) -> (n: &'static str)
        ensures
            n@ == chat_role_name(*self),
    {
        match self {
            ChatRole::System => "system",
            ChatRole::User => "user",
            ChatRole::Assistant => "assistant",
            ChatRole::Function => "function",
        }
    }
}

/// The token counts of a completion.
#[derive(Debug)]
pub struct Usage {
    pub prompt_tokens: u64,
    pub completion_tokens: Option<u64>,
    pub total_tokens: u64,
}

/// The message of one choice of a completion.
#[derive(Debug)]
pub struct ChatResponseMessage {
    pub role: String,
    pub content: String,
}

/// One choice of a completion.
#[derive(Debug)]
pub struct ChatResponseChoice {
    pub index: u64,
    pub message: ChatResponseMessage,
    pub finish_reason: String,
}

/// A chat completion.
#[derive(Debug)]
pub struct ChatCompletion {
    pub id: String,
    pub object: String,
    pub created: u64,
    pub model: String,
    pub choices: Vec<ChatResponseChoice>,
    pub usage: Usage,
}

/// A failure of a request for a chat completion.
#[derive(Debug, PartialEq, Eq)]
pub enum OpenAIError {
    CreateChat(String),
    Serialize(String),
}

/// The text of a failure.
pub open spec fn openai_error_text(e: OpenAIError) -> Seq<char> {
    match e {
        OpenAIError::CreateChat(a) => "unable to retrieve chat completion. error: "@ + a@,
        OpenAIError::Serialize(a) => "unable to serialize response. error: "@ + a@,
    }
}

impl OpenAIError {
    /// The failure as one line of text.
    pub fn message(&self) -> (m: String)
        ensures
            m@ == openai_error_text(*self),
    {
        match self {
            OpenAIError::CreateChat(a) => join2("unable to retrieve chat completion. error: ", a.as_str()),
            OpenAIError::Serialize(a) => join2("unable to serialize response. error: ", a.as_str()),
        }
    }
}

/// The address of the chat-completion endpoint below `base_uri`.
pub fn chat_completions_uri(base_uri: &str) -> (uri: String)
    ensures
        uri@ == base_uri@ + "/chat/completions"@,
{
    join2(base_uri, "/chat/completions")
}

/// The value of the `Authorization` header that presents `api_key`.
pub fn bearer_authorization(api_key: &str) -> (value: String)
    ensures
        value@ == "Bearer "@ + api_key@,
{
    join2("Bearer ", api_key)
}

} // verus!
