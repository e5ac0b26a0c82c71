use llm_dispatch::dispatch::{prepare_dispatch, DispatchPlan, OutboundRequest};
use llm_dispatch::model::{Api, ApiConfig, LlmError, Message, Prompt};
use llm_dispatch::dispatch::{envelope_kind, EnvelopeKind};
use llm_dispatch::responses::check_status;

fn config_for(url: &str) -> ApiConfig {
    ApiConfig {
        url: url.to_string(),
        api_key: Some("k-1".to_string()),
        version: None,
        default_model: Some("default-model".to_string()),
        timeout_seconds: Some(30),
    }
}

fn prompt_for(api: Api) -> Prompt {
    Prompt {
        api,
        model: None,
        stream: None,
        messages: vec![
            Message::new("system", "be brief"),
            Message::new("user", "hi"),
        ],
    }
}

fn http_plan(config: &ApiConfig, prompt: &Prompt) -> OutboundRequest {
    match prepare_dispatch(config, prompt) {
        Ok(DispatchPlan::Http(o)) => o,
        _ => panic!("expected an HTTP plan"),
    }
}

fn body_json(config: &ApiConfig, prompt: &Prompt) -> serde_json::Value {
    let o = http_plan(config, prompt);
    serde_json::from_str(&o.body).expect("the serialized body must be valid JSON")
}

#[test]
fn streaming_is_always_disabled() {
    let config = config_for("http://localhost:1");
    let mut prompt = prompt_for(Api::Openai);
    prompt.stream = Some(true);
    let v = body_json(&config, &prompt);
    assert_eq!(v["stream"], serde_json::Value::Bool(false));

    prompt.stream = None;
    let v = body_json(&config, &prompt);
    assert_eq!(v["stream"], serde_json::Value::Bool(false));
}

#[test]
fn default_model_is_substituted() {
    let config = config_for("http://localhost:1");
    let prompt = prompt_for(Api::Openai);
    let v = body_json(&config, &prompt);
    assert_eq!(v["model"].as_str(), Some("default-model"));
}

#[test]
fn set_model_passes_through_unchanged() {
    let config = config_for("http://localhost:1");
    let mut prompt = prompt_for(Api::Openai);
    prompt.model = Some("my-model".to_string());
    let v = body_json(&config, &prompt);
    assert_eq!(v["model"].as_str(), Some("my-model"));
}

#[test]
fn no_model_anywhere_serializes_as_null() {
    let mut config = config_for("http://localhost:1");
    config.default_model = None;
    let prompt = prompt_for(Api::Groq);
    let v = body_json(&config, &prompt);
    assert!(v["model"].is_null());
}

#[test]
fn anthropic_without_version_is_a_configuration_error() {
    let config = config_for("http://localhost:1");
    let prompt = prompt_for(Api::Anthropic);
    match prepare_dispatch(&config, &prompt) {
        Err(LlmError::ConfigurationError(_)) => {}
        _ => panic!("expected a configuration error"),
    }
}

#[test]
fn test_only_provider_is_rejected() {
    let config = config_for("http://localhost:1");
    let prompt = prompt_for(Api::AnotherApiForTests);
    match prepare_dispatch(&config, &prompt) {
        Err(LlmError::UnsupportedOperation) => {}
        _ => panic!("expected the unsupported-operation error"),
    }
}

#[test]
fn bearer_auth_for_openai_compatible_providers() {
    let config = config_for("http://localhost:1");
    for api in [Api::Openai, Api::Mistral, Api::Groq] {
        let o = http_plan(&config, &prompt_for(api));
        assert_eq!(
            o.headers,
            vec![
                ("Content-Type".to_string(), "application/json".to_string()),
                ("Authorization".to_string(), "Bearer k-1".to_string()),
            ]
        );
    }
}

#[test]
fn cerebras_adds_the_fixed_client_identifier() {
    let config = config_for("http://localhost:1");
    let o = http_plan(&config, &prompt_for(Api::Cerebras));
    assert_eq!(
        o.headers,
        vec![
            ("Content-Type".to_string(), "application/json".to_string()),
            ("User-Agent".to_string(), "CUSTOM_NAME/1.0".to_string()),
            ("Authorization".to_string(), "Bearer k-1".to_string()),
        ]
    );
}

#[test]
fn azure_uses_the_api_key_header() {
    let config = config_for("http://localhost:1");
    let o = http_plan(&config, &prompt_for(Api::AzureOpenai));
    assert_eq!(
        o.headers,
        vec![
            ("Content-Type".to_string(), "application/json".to_string()),
            ("api-key".to_string(), "k-1".to_string()),
        ]
    );
}

#[test]
fn ollama_sends_no_auth_header() {
    let config = config_for("http://localhost:1");
    let o = http_plan(&config, &prompt_for(Api::Ollama));
    assert_eq!(
        o.headers,
        vec![("Content-Type".to_string(), "application/json".to_string())]
    );
}

#[test]
fn anthropic_sends_key_and_version_headers() {
    let mut config = config_for("http://localhost:1");
    config.version = Some("2023-06-01".to_string());
    let o = http_plan(&config, &prompt_for(Api::Anthropic));
    assert_eq!(
        o.headers,
        vec![
            ("Content-Type".to_string(), "application/json".to_string()),
            ("x-api-key".to_string(), "k-1".to_string()),
            ("anthropic-version".to_string(), "2023-06-01".to_string()),
        ]
    );
}

#[test]
fn url_and_timeout_come_from_the_config() {
    let config = config_for("http://example.invalid/v1/chat");
    let o = http_plan(&config, &prompt_for(Api::Openai));
    assert_eq!(o.url, "http://example.invalid/v1/chat");
    assert_eq!(o.timeout_seconds, Some(30));
}

#[test]
fn non_success_status_is_an_api_error_with_status_and_body() {
    let r = check_status(401, "{\"error\":\"unauthorized\"}".to_string());
    match r {
        Err(LlmError::ApiError(status, body)) => {
            assert_eq!(status, 401);
            assert_eq!(body, "{\"error\":\"unauthorized\"}");
        }
        _ => panic!("expected an api error"),
    }
}

#[test]
fn success_status_passes_the_body_through() {
    let r = check_status(200, "ok-body".to_string());
    assert_eq!(r.unwrap(), "ok-body");
    assert!(check_status(299, String::new()).is_ok());
    assert!(check_status(300, String::new()).is_err());
    assert!(check_status(199, String::new()).is_err());
}

#[test]
fn independent_dispatches_do_not_interfere() {
    let mut config_a = config_for("http://a.invalid");
    config_a.api_key = Some("key-a".to_string());
    let mut config_b = config_for("http://b.invalid");
    config_b.api_key = Some("key-b".to_string());
    let mut prompt_a = prompt_for(Api::Openai);
    prompt_a.model = Some("model-a".to_string());
    let mut prompt_b = prompt_for(Api::Groq);
    prompt_b.model = Some("model-b".to_string());

    let oa = http_plan(&config_a, &prompt_a);
    let ob = http_plan(&config_b, &prompt_b);
    assert_eq!(oa.url, "http://a.invalid");
    assert_eq!(ob.url, "http://b.invalid");
    let va: serde_json::Value = serde_json::from_str(&oa.body).unwrap();
    let vb: serde_json::Value = serde_json::from_str(&ob.body).unwrap();
    assert_eq!(va["model"].as_str(), Some("model-a"));
    assert_eq!(vb["model"].as_str(), Some("model-b"));
    assert_eq!(oa.headers[1].1, "Bearer key-a");
    assert_eq!(ob.headers[1].1, "Bearer key-b");
}

#[test]
fn missing_api_key_becomes_an_empty_bearer_token() {
    let mut config = config_for("http://localhost:1");
    config.api_key = None;
    assert_eq!(config.get_api_key(), "");
    let o = http_plan(&config, &prompt_for(Api::Openai));
    assert_eq!(o.headers[1].1, "Bearer ");
}

#[test]
fn each_provider_answers_with_its_envelope() {
    assert_eq!(envelope_kind(Api::Ollama), Some(EnvelopeKind::Ollama));
    assert_eq!(envelope_kind(Api::Anthropic), Some(EnvelopeKind::Anthropic));
    assert_eq!(envelope_kind(Api::Bedrock), Some(EnvelopeKind::Nova));
    assert_eq!(envelope_kind(Api::AnotherApiForTests), None);
    for api in [
        Api::Openai,
        Api::AzureOpenai,
        Api::Mistral,
        Api::Groq,
        Api::Cerebras,
    ] {
        assert_eq!(envelope_kind(api), Some(EnvelopeKind::OpenAi));
    }
}
