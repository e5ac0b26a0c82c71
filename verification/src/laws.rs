//! Laws relating the adapters' encode and decode directions: a synthetic
//! success envelope of each HTTP dialect carrying an injected text decodes
//! to exactly that text.

use vstd::prelude::*;

use crate::bedrock::nova_extracted;
use crate::bedrock::NovaLiteResponse;
use crate::responses::{
    anthropic_extracted, ollama_extracted, openai_extracted, AnthropicResponse, OllamaResponse,
    OpenAiResponse,
};

verus! {

/// Law: an OpenAI-compatible success envelope whose first choice carries the
/// injected text decodes to exactly that text.
pub proof fn lemma_openai_round_trip(r: OpenAiResponse, text: Seq<char>)
    requires
        r.choices@.len() > 0,
        r.choices@[0].message.content@ == text,
    ensures
        openai_extracted(r) == Some(text),
{
}

/// Law: an Anthropic success envelope whose first content block carries the
/// injected text decodes to exactly that text.
pub proof fn lemma_anthropic_round_trip(r: AnthropicResponse, text: Seq<char>)
    requires
        r.content@.len() > 0,
        r.content@[0].text@ == text,
    ensures
        anthropic_extracted(r) == Some(text),
{
}

/// Law: an Ollama success envelope whose message carries the injected text
/// decodes to exactly that text.
pub proof fn lemma_ollama_round_trip(r: OllamaResponse, text: Seq<char>)
    requires
        r.message.content@ == text,
    ensures
        ollama_extracted(r) == text,
{
}

/// Law: a Bedrock success envelope whose first content block carries the
/// injected text decodes to exactly that text.
pub proof fn lemma_bedrock_round_trip(r: NovaLiteResponse, text: Seq<char>)
    requires
        r.output.message.content@.len() > 0,
        r.output.message.content@[0].text@ == text,
    ensures
        nova_extracted(r) == Some(text),
{
}

} // verus!
