//! The provider-agnostic data model: providers, configuration, messages,
//! prompts, and the error taxonomy shared by every dispatch path.

use vstd::prelude::*;

verus! {

/// The closed set of supported providers. Each value determines the wire
/// dialect, the authentication header shape, and the response envelope.
#[derive(Clone, Copy, Debug, PartialEq, Eq, Structural)]
pub enum Api {
    Openai,
    AzureOpenai,
    Ollama,
    Mistral,
    Groq,
    Cerebras,
    Anthropic,
    Bedrock,
    AnotherApiForTests,
}

/// Read-only connection settings for one provider, produced by an external
/// configuration loader and never mutated by this crate.
#[derive(Clone, Debug)]
pub struct ApiConfig {
    pub url: String,
    pub api_key: Option<String>,
    pub version: Option<String>,
    pub default_model: Option<String>,
    pub timeout_seconds: Option<u32>,
}

/// One conversation turn: a role (the values "system", "user" and
/// "assistant" carry special meaning) and its text content.
#[derive(Clone, Debug)]
pub struct Message {
    pub role: String,
    pub content: String,
}

/// An ordered conversation plus the target provider and generation settings.
#[derive(Clone, Debug)]
pub struct Prompt {
    pub api: Api,
    pub model: Option<String>,
    pub stream: Option<bool>,
    pub messages: Vec<Message>,
}

/// One error for every failure mode of a dispatch, so that callers need not
/// know which provider was involved.
#[derive(Debug)]
pub enum LlmError {
    /// A field required by the selected dialect is missing from the
    /// configuration; detected before any network call.
    ConfigurationError(String),
    /// Connection, DNS or timeout failure, surfaced verbatim.
    TransportError(String),
    /// A non-success HTTP status; carries the status code and the raw body.
    ApiError(u16, String),
    /// A body that does not match the dialect's envelope; carries the raw body.
    DecodeError(String),
    /// The test-only provider reached the live call path.
    UnsupportedOperation,
}

/// The view of an optional string as an optional character sequence.
pub open spec fn opt_str_view(o: Option<String>) -> Option<Seq<char>> {
    match o {
        Some(s) => Some(s@),
        None => None,
    }
}

/// The key a request is authenticated with: the configured key, or the empty
/// string where none is configured.
pub open spec fn key_view(config: ApiConfig) -> Seq<char> {
    match config.api_key {
        Some(k) => k@,
        None => Seq::<char>::empty(),
    }
}

impl ApiConfig {
    /// The configured API key, or the empty string where none is set.
    pub fn get_api_key(&self) -> (r: String)
        ensures
            r@ == key_view(*self),
    {
        match &self.api_key {
            Some(k) => k.clone(),
            None => String::new(),
        }
    }
}

impl Message {
    /// A message of the given role and content.
    pub fn new(role: &str, content: &str) -> (r: Message)
        ensures
            r.role@ == role@,
            r.content@ == content@,
    {
        Message { role: role.to_owned(), content: content.to_owned() }
    }

    /// The single normalized form every provider's answer is returned in.
    pub fn assistant(content: &str) -> (r: Message)
        ensures
            r.role@ == "assistant"@,
            r.content@ == content@,
    {
        Message { role: "assistant".to_owned(), content: content.to_owned() }
    }

    /// Whether this message belongs to the system part of a conversation.
    pub fn is_system(&self) -> (r: bool)
        ensures
            r == (self.role@ == "system"@),
    {
        let sys: String = "system".to_owned();
        self.role == sys
    }
}

} // verus!
