//! The dispatch router: prompt normalization, dialect selection, the
//! per-provider header and authentication policy, and the fully prepared
//! outbound call for each provider.

use vstd::prelude::*;

use crate::bedrock::{lemma_nova_body_from, nova_body_from, nova_request_json, NovaLiteRequest};
use crate::model::{key_view, opt_str_view, Api, ApiConfig, LlmError, Prompt};
use crate::requests::{
    anthropic_body, anthropic_max_tokens, anthropic_request_json, copy_messages, copy_opt_string,
    openai_body, openai_request_json, AnthropicPrompt, OpenAiPrompt,
};
use crate::wire::{chat_pairs, msgs_view, system_texts};

verus! {

/// A fully prepared HTTP request: everything the transport needs, nothing it
/// decides.
pub struct OutboundRequest {
    pub url: String,
    pub headers: Vec<(String, String)>,
    pub body: String,
    pub timeout_seconds: Option<u32>,
}

/// A fully prepared Bedrock invocation: the fixed identifiers of the call
/// and the serialized request body.
pub struct BedrockCall {
    pub model_id: String,
    pub content_type: String,
    pub endpoint_url: String,
    pub profile_name: String,
    pub fallback_region: String,
    pub body: String,
}

/// What a dispatch resolves to before any network work: a plain HTTP request
/// or a Bedrock invocation.
pub enum DispatchPlan {
    Http(OutboundRequest),
    Bedrock(BedrockCall),
}

/// The response envelope family a provider's success body is parsed as.
#[derive(Clone, Copy, Debug, PartialEq, Eq, Structural)]
pub enum EnvelopeKind {
    OpenAi,
    Anthropic,
    Ollama,
    Nova,
}

/// The envelope each provider answers with; the test-only provider answers
/// with none.
pub fn envelope_kind(api: Api) -> (k: Option<EnvelopeKind>)
    ensures
        api == Api::AnotherApiForTests <==> k is None,
        api == Api::Ollama ==> k == Some(EnvelopeKind::Ollama),
        api == Api::Anthropic ==> k == Some(EnvelopeKind::Anthropic),
        api == Api::Bedrock ==> k == Some(EnvelopeKind::Nova),
        (api == Api::Openai || api == Api::AzureOpenai || api == Api::Mistral || api == Api::Groq
            || api == Api::Cerebras) ==> k == Some(EnvelopeKind::OpenAi),
{
    match api {
        Api::Ollama => Some(EnvelopeKind::Ollama),
        Api::Anthropic => Some(EnvelopeKind::Anthropic),
        Api::Bedrock => Some(EnvelopeKind::Nova),
        Api::AnotherApiForTests => None,
        _ => Some(EnvelopeKind::OpenAi),
    }
}

/// The model a normalized prompt carries: its own, or the configured
/// default where none is set.
pub open spec fn normalized_model(p: Prompt, c: ApiConfig) -> Option<Seq<char>> {
    if p.model is Some {
        opt_str_view(p.model)
    } else {
        opt_str_view(c.default_model)
    }
}

/// The view of a header list.
pub open spec fn headers_view(h: Seq<(String, String)>) -> Seq<(Seq<char>, Seq<char>)> {
    h.map_values(|p: (String, String)| (p.0@, p.1@))
}

/// The value of a bearer-token authorization header.
pub open spec fn bearer(key: Seq<char>) -> Seq<char> {
    "Bearer "@ + key
}

/// The headers of one HTTP dispatch: the base content type, the fixed client
/// identifier for Cerebras, then the provider's authentication headers.
pub open spec fn headers_model(api: Api, config: ApiConfig) -> Seq<(Seq<char>, Seq<char>)> {
    let base = seq![("Content-Type"@, "application/json"@)];
    let based = if api == Api::Cerebras {
        base.push(("User-Agent"@, "CUSTOM_NAME/1.0"@))
    } else {
        base
    };
    match api {
        Api::Openai | Api::Mistral | Api::Groq | Api::Cerebras => based.push(
            ("Authorization"@, bearer(key_view(config))),
        ),
        Api::AzureOpenai => based.push(("api-key"@, key_view(config))),
        Api::Anthropic => based.push(("x-api-key"@, key_view(config))).push(
            (
                "anthropic-version"@,
                match config.version {
                    Some(v) => v@,
                    None => Seq::<char>::empty(),
                },
            ),
        ),
        _ => based,
    }
}

/// The exact body of one HTTP dispatch, by dialect.
pub open spec fn body_model(api: Api, config: ApiConfig, prompt: Prompt) -> Seq<char> {
    if api == Api::Anthropic {
        anthropic_body(
            normalized_model(prompt, config),
            anthropic_max_tokens(),
            system_texts(msgs_view(prompt.messages@)),
            chat_pairs(msgs_view(prompt.messages@)),
        )
    } else {
        openai_body(normalized_model(prompt, config), msgs_view(prompt.messages@), false)
    }
}

/// Returns the prompt as dispatched: the caller's conversation and provider
/// unchanged, streaming forced off, and the configured default model
/// substituted where none is set.
pub fn normalize_prompt(prompt: &Prompt, config: &ApiConfig) -> (r: Prompt)
    ensures
        r.api == prompt.api,
        r.stream == Some(false),
        opt_str_view(r.model) == normalized_model(*prompt, *config),
        msgs_view(r.messages@) == msgs_view(prompt.messages@),
{
    let model = match &prompt.model {
        Some(m) => Some(m.clone()),
        None => copy_opt_string(&config.default_model),
    };
    Prompt {
        api: prompt.api,
        model,
        stream: Some(false),
        messages: copy_messages(&prompt.messages),
    }
}

/// Builds the header list of one HTTP dispatch, per the header policy.
fn build_headers(api: Api, config: &ApiConfig) -> (h: Vec<(String, String)>)
    ensures
        headers_view(h@) == headers_model(api, *config),
{
    let mut h: Vec<(String, String)> = Vec::new();
    h.push(("Content-Type".to_owned(), "application/json".to_owned()));
    if api == Api::Cerebras {
        h.push(("User-Agent".to_owned(), "CUSTOM_NAME/1.0".to_owned()));
    }
    match api {
        Api::Openai | Api::Mistral | Api::Groq | Api::Cerebras => {
            let auth = "Bearer ".to_owned().concat(config.get_api_key().as_str());
            h.push(("Authorization".to_owned(), auth));
        },
        Api::AzureOpenai => {
            h.push(("api-key".to_owned(), config.get_api_key()));
        },
        Api::Anthropic => {
            h.push(("x-api-key".to_owned(), config.get_api_key()));
            let v = match &config.version {
                Some(v) => v.clone(),
                None => String::new(),
            };
            h.push(("anthropic-version".to_owned(), v));
        },
        _ => {},
    }
    proof {
        assert(headers_view(h@) =~~= headers_model(api, *config));
    }
    h
}

/// Resolves a call before any network work: normalizes the prompt, selects
/// the dialect, applies the header policy, and serializes the body — or
/// fails, before any network call, where the configuration or the provider
/// does not admit a live dispatch.
pub fn prepare_dispatch(config: &ApiConfig, prompt: &Prompt) -> (r: Result<DispatchPlan, LlmError>)
    ensures
        (prompt.api == Api::AnotherApiForTests) <==> (r matches Err(
            LlmError::UnsupportedOperation,
        )),
        (prompt.api == Api::Anthropic && config.version is None) <==> (r matches Err(
            LlmError::ConfigurationError(_),
        )),
        r is Err ==> (prompt.api == Api::AnotherApiForTests || (prompt.api == Api::Anthropic
            && config.version is None)),
        prompt.api == Api::Bedrock ==> (r matches Ok(DispatchPlan::Bedrock(b)) && {
            &&& b.model_id@ == "us.amazon.nova-lite-v1:0"@
            &&& b.content_type@ == "application/json"@
            &&& b.endpoint_url@ == "https://bedrock-runtime.us-west-2.amazonaws.com"@
            &&& b.profile_name@ == "dev"@
            &&& b.fallback_region@ == "us-west-2"@
            &&& b.body@ == nova_body_from(msgs_view(prompt.messages@))
        }),
        r matches Ok(DispatchPlan::Http(o)) ==> {
            &&& prompt.api != Api::Bedrock && prompt.api != Api::AnotherApiForTests
            &&& o.url@ == config.url@
            &&& o.timeout_seconds == config.timeout_seconds
            &&& headers_view(o.headers@) == headers_model(prompt.api, *config)
            &&& o.body@ == body_model(prompt.api, *config, *prompt)
        },
        (prompt.api != Api::Bedrock && prompt.api != Api::AnotherApiForTests && !(prompt.api
            == Api::Anthropic && config.version is None)) ==> (r matches Ok(
            DispatchPlan::Http(_),
        )),
{
    let p = normalize_prompt(prompt, config);
    match p.api {
        Api::AnotherApiForTests => Err(LlmError::UnsupportedOperation),
        Api::Bedrock => {
            let req = NovaLiteRequest::new(&p);
            let body = nova_request_json(&req);
            proof {
                lemma_nova_body_from(req, msgs_view(p.messages@));
            }
            Ok(
                DispatchPlan::Bedrock(
                    BedrockCall {
                        model_id: "us.amazon.nova-lite-v1:0".to_owned(),
                        content_type: "application/json".to_owned(),
                        endpoint_url: "https://bedrock-runtime.us-west-2.amazonaws.com".to_owned(),
                        profile_name: "dev".to_owned(),
                        fallback_region: "us-west-2".to_owned(),
                        body,
                    },
                ),
            )
        },
        Api::Anthropic => {
            if config.version.is_none() {
                Err(
                    LlmError::ConfigurationError(
                        "version required for Anthropic, please add version key to your api config".to_owned(),
                    ),
                )
            } else {
                let wire = AnthropicPrompt::from_prompt(&p);
                let body = anthropic_request_json(&wire);
                let headers = build_headers(Api::Anthropic, config);
                Ok(
                    DispatchPlan::Http(
                        OutboundRequest {
                            url: config.url.clone(),
                            headers,
                            body,
                            timeout_seconds: config.timeout_seconds,
                        },
                    ),
                )
            }
        },
        _ => {
            let wire = OpenAiPrompt::from_prompt(&p);
            let body = openai_request_json(&wire);
            let headers = build_headers(p.api, config);
            Ok(
                DispatchPlan::Http(
                    OutboundRequest {
                        url: config.url.clone(),
                        headers,
                        body,
                        timeout_seconds: config.timeout_seconds,
                    },
                ),
            )
        },
    }
}

} // verus!
