use llm_dispatch::bedrock::{
    normalize_bedrock, nova_request_json, NovaLiteOutput, NovaLiteRequest, NovaLiteResponse,
    NovaMessage, NovaMessageContent,
};
use llm_dispatch::dispatch::{prepare_dispatch, DispatchPlan};
use llm_dispatch::model::{Api, ApiConfig, LlmError, Message, Prompt};
use llm_dispatch::requests::{
    anthropic_request_json, openai_request_json, AnthropicPrompt, OpenAiPrompt,
};
use llm_dispatch::responses::{
    normalize_anthropic, normalize_ollama, normalize_openai, AnthropicContentBlock,
    AnthropicResponse, OllamaResponse, OpenAiChoice, OpenAiResponse,
};

fn four_turn_prompt(api: Api) -> Prompt {
    Prompt {
        api,
        model: None,
        stream: None,
        messages: vec![
            Message::new("system", "A"),
            Message::new("user", "B"),
            Message::new("system", "C"),
            Message::new("assistant", "D"),
        ],
    }
}

#[test]
fn bedrock_partition_preserves_relative_order() {
    let request = NovaLiteRequest::new(&four_turn_prompt(Api::Bedrock));
    assert_eq!(request.inference_config.max_new_tokens, 1000);
    let system: Vec<&str> = request.system.iter().map(|c| c.text.as_str()).collect();
    assert_eq!(system, vec!["A", "C"]);
    let turns: Vec<(&str, &str)> = request
        .messages
        .iter()
        .map(|m| (m.role.as_str(), m.content[0].text.as_str()))
        .collect();
    assert_eq!(turns, vec![("user", "B"), ("assistant", "D")]);
    for m in &request.messages {
        assert_eq!(m.content.len(), 1);
    }
}

#[test]
fn bedrock_body_has_the_documented_shape() {
    let config = ApiConfig {
        url: String::new(),
        api_key: None,
        version: None,
        default_model: None,
        timeout_seconds: None,
    };
    let prompt = four_turn_prompt(Api::Bedrock);
    let call = match prepare_dispatch(&config, &prompt) {
        Ok(DispatchPlan::Bedrock(b)) => b,
        _ => panic!("expected a bedrock plan"),
    };
    assert_eq!(call.model_id, "us.amazon.nova-lite-v1:0");
    assert_eq!(call.content_type, "application/json");
    assert_eq!(
        call.endpoint_url,
        "https://bedrock-runtime.us-west-2.amazonaws.com"
    );
    assert_eq!(call.profile_name, "dev");
    assert_eq!(call.fallback_region, "us-west-2");
    let v: serde_json::Value = serde_json::from_str(&call.body).unwrap();
    assert_eq!(v["inferenceConfig"]["max_new_tokens"].as_u64(), Some(1000));
    assert_eq!(v["system"][0]["text"].as_str(), Some("A"));
    assert_eq!(v["system"][1]["text"].as_str(), Some("C"));
    assert_eq!(v["system"].as_array().unwrap().len(), 2);
    assert_eq!(v["messages"][0]["role"].as_str(), Some("user"));
    assert_eq!(v["messages"][0]["content"][0]["text"].as_str(), Some("B"));
    assert_eq!(v["messages"][1]["role"].as_str(), Some("assistant"));
    assert_eq!(v["messages"][1]["content"][0]["text"].as_str(), Some("D"));
    assert_eq!(v["messages"].as_array().unwrap().len(), 2);
}

#[test]
fn openai_body_is_exact() {
    let wire = OpenAiPrompt {
        model: Some("m".to_string()),
        stream: false,
        messages: vec![Message::new("user", "hi")],
    };
    let body = openai_request_json(&wire);
    assert_eq!(
        body,
        "{\"model\":\"m\",\"messages\":[{\"role\":\"user\",\"content\":\"hi\"}],\"stream\":false}"
    );
}

#[test]
fn anthropic_body_separates_system_messages() {
    let wire = AnthropicPrompt::from_prompt(&four_turn_prompt(Api::Anthropic));
    assert_eq!(wire.max_tokens, 4096);
    assert_eq!(wire.system, vec!["A".to_string(), "C".to_string()]);
    let body = anthropic_request_json(&wire);
    let v: serde_json::Value = serde_json::from_str(&body).unwrap();
    assert_eq!(v["max_tokens"].as_u64(), Some(4096));
    assert_eq!(v["system"][0]["type"].as_str(), Some("text"));
    assert_eq!(v["system"][0]["text"].as_str(), Some("A"));
    assert_eq!(v["system"][1]["text"].as_str(), Some("C"));
    assert_eq!(v["messages"][0]["role"].as_str(), Some("user"));
    assert_eq!(v["messages"][0]["content"].as_str(), Some("B"));
    assert_eq!(v["messages"][1]["role"].as_str(), Some("assistant"));
    assert_eq!(v["messages"][1]["content"].as_str(), Some("D"));
    assert_eq!(v["messages"].as_array().unwrap().len(), 2);
}

#[test]
fn json_escaping_round_trips_through_a_real_parser() {
    let tricky = "a \"quoted\" piece,\nwith a \\ backslash,\ta tab\rand a return";
    let wire = OpenAiPrompt {
        model: Some("mo\"del".to_string()),
        stream: false,
        messages: vec![Message::new("user", tricky)],
    };
    let body = openai_request_json(&wire);
    let v: serde_json::Value = serde_json::from_str(&body).unwrap();
    assert_eq!(v["model"].as_str(), Some("mo\"del"));
    assert_eq!(v["messages"][0]["content"].as_str(), Some(tricky));
}

#[test]
fn openai_round_trip_returns_the_injected_text() {
    let r = OpenAiResponse {
        choices: vec![OpenAiChoice {
            message: Message::new("assistant", "injected"),
        }],
    };
    let m = normalize_openai(&r, "raw").unwrap();
    assert_eq!(m.role, "assistant");
    assert_eq!(m.content, "injected");
}

#[test]
fn openai_first_choice_wins() {
    let r = OpenAiResponse {
        choices: vec![
            OpenAiChoice {
                message: Message::new("assistant", "first"),
            },
            OpenAiChoice {
                message: Message::new("assistant", "second"),
            },
        ],
    };
    assert_eq!(normalize_openai(&r, "raw").unwrap().content, "first");
}

#[test]
fn openai_empty_choices_is_a_decode_error() {
    let r = OpenAiResponse { choices: vec![] };
    match normalize_openai(&r, "the raw body") {
        Err(LlmError::DecodeError(b)) => assert_eq!(b, "the raw body"),
        _ => panic!("expected a decode error"),
    }
}

#[test]
fn anthropic_round_trip_returns_the_injected_text() {
    let r = AnthropicResponse {
        content: vec![AnthropicContentBlock {
            text: "injected".to_string(),
        }],
    };
    let m = normalize_anthropic(&r, "raw").unwrap();
    assert_eq!(m.role, "assistant");
    assert_eq!(m.content, "injected");
}

#[test]
fn anthropic_empty_content_is_a_decode_error() {
    let r = AnthropicResponse { content: vec![] };
    assert!(matches!(
        normalize_anthropic(&r, "raw"),
        Err(LlmError::DecodeError(_))
    ));
}

#[test]
fn ollama_round_trip_returns_the_injected_text() {
    let r = OllamaResponse {
        message: Message::new("assistant", "injected"),
    };
    let m = normalize_ollama(&r);
    assert_eq!(m.role, "assistant");
    assert_eq!(m.content, "injected");
}

#[test]
fn bedrock_round_trip_returns_the_injected_text() {
    let r = NovaLiteResponse {
        output: NovaLiteOutput {
            message: NovaMessage {
                role: "assistant".to_string(),
                content: vec![NovaMessageContent {
                    text: "injected".to_string(),
                }],
            },
        },
    };
    let m = normalize_bedrock(&r, "raw").unwrap();
    assert_eq!(m.role, "assistant");
    assert_eq!(m.content, "injected");
}

#[test]
fn bedrock_empty_content_is_a_decode_error() {
    let r = NovaLiteResponse {
        output: NovaLiteOutput {
            message: NovaMessage {
                role: "assistant".to_string(),
                content: vec![],
            },
        },
    };
    assert!(matches!(
        normalize_bedrock(&r, "raw"),
        Err(LlmError::DecodeError(_))
    ));
}

#[test]
fn empty_conversation_serializes_to_empty_arrays() {
    let prompt = Prompt {
        api: Api::Bedrock,
        model: None,
        stream: None,
        messages: vec![],
    };
    let request = NovaLiteRequest::new(&prompt);
    let body = nova_request_json(&request);
    let v: serde_json::Value = serde_json::from_str(&body).unwrap();
    assert_eq!(v["system"].as_array().unwrap().len(), 0);
    assert_eq!(v["messages"].as_array().unwrap().len(), 0);
}

#[test]
fn bedrock_body_is_exact() {
    let prompt = Prompt {
        api: Api::Bedrock,
        model: None,
        stream: None,
        messages: vec![Message::new("system", "A"), Message::new("user", "B")],
    };
    let body = nova_request_json(&NovaLiteRequest::new(&prompt));
    assert_eq!(
        body,
        "{\"inferenceConfig\":{\"max_new_tokens\":1000},\"system\":[{\"text\":\"A\"}],\
         \"messages\":[{\"role\":\"user\",\"content\":[{\"text\":\"B\"}]}]}"
    );
}

#[test]
fn control_characters_are_escaped_as_unicode() {
    let text = "a\u{1}b\u{1f}c";
    let wire = OpenAiPrompt {
        model: None,
        stream: false,
        messages: vec![Message::new("user", text)],
    };
    let body = openai_request_json(&wire);
    assert!(body.contains("\\u0001"));
    assert!(body.contains("\\u001f"));
    let v: serde_json::Value = serde_json::from_str(&body).unwrap();
    assert_eq!(v["messages"][0]["content"].as_str(), Some(text));
}
