//! The response envelopes of the HTTP dialects and their normalization into
//! the single internal assistant message, plus the uniform status-code
//! policy.

use vstd::prelude::*;

use crate::model::{LlmError, Message};

verus! {

/// One choice of an OpenAI-compatible response.
pub struct OpenAiChoice {
    pub message: Message,
}

/// The OpenAI-compatible response envelope: a list of choices.
pub struct OpenAiResponse {
    pub choices: Vec<OpenAiChoice>,
}

/// One content block of an Anthropic response.
pub struct AnthropicContentBlock {
    pub text: String,
}

/// The Anthropic response envelope: a list of content blocks.
pub struct AnthropicResponse {
    pub content: Vec<AnthropicContentBlock>,
}

/// The Ollama response envelope: a single message object.
pub struct OllamaResponse {
    pub message: Message,
}

/// The text an OpenAI-compatible envelope carries: the first choice's
/// message content, where a choice exists.
pub open spec fn openai_extracted(r: OpenAiResponse) -> Option<Seq<char>> {
    if r.choices@.len() > 0 {
        Some(r.choices@[0].message.content@)
    } else {
        None
    }
}

/// The text an Anthropic envelope carries: the first content block's text,
/// where a block exists.
pub open spec fn anthropic_extracted(r: AnthropicResponse) -> Option<Seq<char>> {
    if r.content@.len() > 0 {
        Some(r.content@[0].text@)
    } else {
        None
    }
}

/// The text an Ollama envelope carries: its message's content.
pub open spec fn ollama_extracted(r: OllamaResponse) -> Seq<char> {
    r.message.content@
}

/// Whether a status code counts as success.
pub open spec fn is_success_status(status: u16) -> bool {
    200 <= status < 300
}

/// Applies the uniform status policy: a success status passes the body
/// through, any other status becomes an API error carrying the status code
/// and the raw body.
pub fn check_status(status: u16, body: String) -> (r: Result<String, LlmError>)
    ensures
        is_success_status(status) <==> r is Ok,
        r matches Ok(b) ==> b@ == body@,
        r matches Err(e) ==> (e matches LlmError::ApiError(s, b) && s == status && b@ == body@),
{
    if 200 <= status && status < 300 {
        Ok(body)
    } else {
        Err(LlmError::ApiError(status, body))
    }
}

/// Normalizes an OpenAI-compatible envelope: the first choice's message
/// content becomes the assistant message; an empty choice list is a decode
/// error carrying the raw body.
pub fn normalize_openai(r: &OpenAiResponse, raw: &str) -> (m: Result<Message, LlmError>)
    ensures
        m is Ok <==> openai_extracted(*r) is Some,
        m matches Ok(msg) ==> (msg.role@ == "assistant"@ && openai_extracted(*r) == Some(
            msg.content@,
        )),
        m matches Err(e) ==> (e matches LlmError::DecodeError(b) && b@ == raw@),
{
    if r.choices.len() > 0 {
        Ok(Message::assistant(r.choices[0].message.content.as_str()))
    } else {
        Err(LlmError::DecodeError(raw.to_owned()))
    }
}

/// Normalizes an Anthropic envelope: the first content block's text becomes
/// the assistant message; an empty block list is a decode error carrying the
/// raw body.
pub fn normalize_anthropic(r: &AnthropicResponse, raw: &str) -> (m: Result<Message, LlmError>)
    ensures
        m is Ok <==> anthropic_extracted(*r) is Some,
        m matches Ok(msg) ==> (msg.role@ == "assistant"@ && anthropic_extracted(*r) == Some(
            msg.content@,
        )),
        m matches Err(e) ==> (e matches LlmError::DecodeError(b) && b@ == raw@),
{
    if r.content.len() > 0 {
        Ok(Message::assistant(r.content[0].text.as_str()))
    } else {
        Err(LlmError::DecodeError(raw.to_owned()))
    }
}

/// Normalizes an Ollama envelope: its message's content becomes the
/// assistant message.
pub fn normalize_ollama(r: &OllamaResponse) -> (m: Message)
    ensures
        m.role@ == "assistant"@,
        m.content@ == ollama_extracted(*r),
{
    Message::assistant(r.message.content.as_str())
}

} // verus!
