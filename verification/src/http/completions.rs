//! Completion requests: what they must hold and what is answered for now.

use crate::http::request_id::{fresh_type_id, has_type_id_shape, valid_type_prefix};
use crate::utils::error::{answer, event_id_fits, ErrorPlan};
use vstd::prelude::*;

verus! {

/// One message of a chat.
#[derive(Debug)]
pub struct ChatMessage {
    pub role: String,
    pub content: String,
}

/// One choice of a chat completion.
#[derive(Debug)]
pub struct ChatCompletionChoice {
    pub index: i32,
    pub message: ChatMessage,
    pub finish_reason: String,
}

/// One choice of a text completion.
#[derive(Debug)]
pub struct TextCompletionChoice {
    pub index: i32,
    pub text: String,
    pub finish_reason: String,
}

/// How many tokens a completion took.
#[derive(Clone, Copy, Debug, PartialEq, Eq, Structural)]
pub struct UsageInfo {
    pub prompt_tokens: i32,
    pub completion_tokens: i32,
    pub total_tokens: i32,
}

/// The answer to a chat completion request.
#[derive(Debug)]
pub struct ChatCompletionResponse {
    pub id: String,
    pub object: String,
    pub choices: Vec<ChatCompletionChoice>,
    pub model: String,
    pub created: i64,
    pub usage: Option<UsageInfo>,
    /// The provider the request named.
    pub provider: String,
}

/// The answer to a text completion request.
#[derive(Debug)]
pub struct TextCompletionResponse {
    pub id: String,
    pub object: String,
    pub choices: Vec<TextCompletionChoice>,
    pub model: String,
    pub created: i64,
    pub usage: Option<UsageInfo>,
    /// The provider the request named.
    pub provider: String,
}

/// What a completion request lacks.
#[derive(Clone, Copy, Debug, PartialEq, Eq, Structural)]
pub enum MissingField {
    Provider,
    Model,
    Messages,
    Text,
}

impl MissingField {
    /// The message that answers the caller, with status 400.
    pub fn message(&self) -> (text: String)
        ensures
            text@ == match *self {
                MissingField::Provider => "Provider is required"@,
                MissingField::Model => "Model is required"@,
                MissingField::Messages => "Messages array cannot be empty"@,
                MissingField::Text => "Text prompt is required"@,
            },
    {
        match self {
            MissingField::Provider => String::from_str("Provider is required"),
            MissingField::Model => String::from_str("Model is required"),
            MissingField::Messages => String::from_str("Messages array cannot be empty"),
            MissingField::Text => String::from_str("Text prompt is required"),
        }
    }

    /// The answer to a request that lacks this field: status 400, and the
    /// message of the field.
    pub fn to_error(&self) -> (out: ErrorPlan)
        ensures
            out@ == answer(
                400,
                "invalid_request_error"@,
                Some("missing_required_parameter"@),
                match *self {
                    MissingField::Provider => "Provider is required"@,
                    MissingField::Model => "Model is required"@,
                    MissingField::Messages => "Messages array cannot be empty"@,
                    MissingField::Text => "Text prompt is required"@,
                },
                true,
            ),
            event_id_fits(out),
    {
        let message = self.message();
        ErrorPlan::bad_request(message.as_str())
    }

    /// The name of the parameter that is lacking.
    pub fn param(&self) -> (text: String)
        ensures
            text@ == match *self {
                MissingField::Provider => "provider"@,
                MissingField::Model => "model"@,
                MissingField::Messages => "messages"@,
                MissingField::Text => "text"@,
            },
    {
        match self {
            MissingField::Provider => String::from_str("provider"),
            MissingField::Model => String::from_str("model"),
            MissingField::Messages => String::from_str("messages"),
            MissingField::Text => String::from_str("text"),
        }
    }
}

/// A field that is absent or empty is lacking.
pub open spec fn lacks(field: Option<&str>) -> bool {
    match field {
        Some(text) => text@.len() == 0,
        None => true,
    }
}

/// What a chat completion request lacks, looking at the provider first,
/// then the model, then the messages.
pub open spec fn chat_check(
    provider: Option<&str>,
    model: Option<&str>,
    message_count: nat,
) -> Result<(), MissingField> {
    if lacks(provider) {
        Err(MissingField::Provider)
    } else if lacks(model) {
        Err(MissingField::Model)
    } else if message_count == 0 {
        Err(MissingField::Messages)
    } else {
        Ok(())
    }
}

/// What a text completion request lacks, looking at the provider first,
/// then the model, then the text.
pub open spec fn text_check(provider: Option<&str>, model: Option<&str>, text: Option<&str>) -> Result<
    (),
    MissingField,
> {
    if lacks(provider) {
        Err(MissingField::Provider)
    } else if lacks(model) {
        Err(MissingField::Model)
    } else if lacks(text) {
        Err(MissingField::Text)
    } else {
        Ok(())
    }
}

fn is_lacking(field: Option<&str>) -> (out: bool)
    ensures
        out == lacks(field),
{
    match field {
        Some(text) => text.is_empty(),
        None => true,
    }
}

/// Checks that a chat completion request holds what it must.
pub fn validate_chat(provider: Option<&str>, model: Option<&str>, message_count: usize) -> (out:
    Result<(), MissingField>)
    ensures
        out == chat_check(provider, model, message_count as nat),
{
    if is_lacking(provider) {
        Err(MissingField::Provider)
    } else if is_lacking(model) {
        Err(MissingField::Model)
    } else if message_count == 0 {
        Err(MissingField::Messages)
    } else {
        Ok(())
    }
}

/// Checks that a text completion request holds what it must.
pub fn validate_text(provider: Option<&str>, model: Option<&str>, text: Option<&str>) -> (out:
    Result<(), MissingField>)
    ensures
        out == text_check(provider, model, text),
{
    if is_lacking(provider) {
        Err(MissingField::Provider)
    } else if is_lacking(model) {
        Err(MissingField::Model)
    } else if is_lacking(text) {
        Err(MissingField::Text)
    } else {
        Ok(())
    }
}

/// The text that stands in for a completion of `text`.
pub open spec fn placeholder_completion(text: Seq<char>) -> Seq<char> {
    "This is a placeholder completion for: "@ + text
}

/// Answers a chat completion request: refuses one that lacks a field, and
/// otherwise returns the stand-in answer under a new identifier, for the
/// model and provider that were named and the time `created`.
pub fn chat_completions(
    provider: Option<&str>,
    model: Option<&str>,
    message_count: usize,
    created: i64,
) -> (out: Result<ChatCompletionResponse, MissingField>)
    ensures
        match out {
            Err(e) => chat_check(provider, model, message_count as nat) == Err::<(), MissingField>(e),
            Ok(r) => {
                &&& chat_check(provider, model, message_count as nat) is Ok
                &&& has_type_id_shape("chatcmpl"@, r.id@)
                &&& r.object@ == "chat.completion"@
                &&& r.model@ == model->0@
                &&& r.provider@ == provider->0@
                &&& r.created == created
                &&& r.usage == Some(
                    UsageInfo { prompt_tokens: 12, completion_tokens: 19, total_tokens: 31 },
                )
                &&& r.choices@.len() == 1
                &&& r.choices@[0].index == 0
                &&& r.choices@[0].message.role@ == "assistant"@
                &&& r.choices@[0].message.content@
                    == "Hello! I'm doing well, thank you for asking. How can I help you today?"@
                &&& r.choices@[0].finish_reason@ == "stop"@
            },
        },
{
    match validate_chat(provider, model, message_count) {
        Err(e) => {
            return Err(e);
        },
        Ok(()) => {},
    }
    let (provider, model) = match (provider, model) {
        (Some(p), Some(m)) => (p, m),
        _ => {
            return Err(MissingField::Provider);
        },
    };
    proof {
        reveal_strlit("chatcmpl");
        assert(valid_type_prefix("chatcmpl"@));
    }
    let id = match fresh_type_id("chatcmpl") {
        Some(id) => id,
        None => String::new(),
    };
    let mut choices: Vec<ChatCompletionChoice> = Vec::new();
    choices.push(
        ChatCompletionChoice {
            index: 0,
            message: ChatMessage {
                role: String::from_str("assistant"),
                content: String::from_str(
                    "Hello! I'm doing well, thank you for asking. How can I help you today?",
                ),
            },
            finish_reason: String::from_str("stop"),
        },
    );
    Ok(
        ChatCompletionResponse {
            id,
            object: String::from_str("chat.completion"),
            choices,
            model: String::from_str(model),
            created,
            usage: Some(UsageInfo { prompt_tokens: 12, completion_tokens: 19, total_tokens: 31 }),
            provider: String::from_str(provider),
        },
    )
}

/// Answers a text completion request: refuses one that lacks a field, and
/// otherwise returns the stand-in answer under a new identifier, for the
/// model and provider that were named and the time `created`.
pub fn text_completions(
    provider: Option<&str>,
    model: Option<&str>,
    text: Option<&str>,
    created: i64,
) -> (out: Result<TextCompletionResponse, MissingField>)
    ensures
        match out {
            Err(e) => text_check(provider, model, text) == Err::<(), MissingField>(e),
            Ok(r) => {
                &&& text_check(provider, model, text) is Ok
                &&& has_type_id_shape("cmpl"@, r.id@)
                &&& r.object@ == "text.completion"@
                &&& r.model@ == model->0@
                &&& r.provider@ == provider->0@
                &&& r.created == created
                &&& r.usage == Some(
                    UsageInfo { prompt_tokens: 5, completion_tokens: 12, total_tokens: 17 },
                )
                &&& r.choices@.len() == 1
                &&& r.choices@[0].index == 0
                &&& r.choices@[0].text@ == placeholder_completion(text->0@)
                &&& r.choices@[0].finish_reason@ == "stop"@
            },
        },
{
    match validate_text(provider, model, text) {
        Err(e) => {
            return Err(e);
        },
        Ok(()) => {},
    }
    let (provider, model, text) = match (provider, model, text) {
        (Some(p), Some(m), Some(t)) => (p, m, t),
        _ => {
            return Err(MissingField::Provider);
        },
    };
    proof {
        reveal_strlit("cmpl");
        assert(valid_type_prefix("cmpl"@));
    }
    let id = match fresh_type_id("cmpl") {
        Some(id) => id,
        None => String::new(),
    };
    let mut completion = String::from_str("This is a placeholder completion for: ");
    completion.append(text);
    let mut choices: Vec<TextCompletionChoice> = Vec::new();
    choices.push(
        TextCompletionChoice {
            index: 0,
            text: completion,
            finish_reason: String::from_str("stop"),
        },
    );
    Ok(
        TextCompletionResponse {
            id,
            object: String::from_str("text.completion"),
            choices,
            model: String::from_str(model),
            created,
            usage: Some(UsageInfo { prompt_tokens: 5, completion_tokens: 12, total_tokens: 17 }),
            provider: String::from_str(provider),
        },
    )
}

} // verus!
