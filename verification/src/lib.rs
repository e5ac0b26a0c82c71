//! A provider-abstraction layer for conversational language-model APIs.
//!
//! One internal prompt representation is translated into the wire format of
//! each supported provider (OpenAI-compatible services, Anthropic, Ollama,
//! and the Bedrock runtime), with the per-provider header and authentication
//! policy applied, and each provider's response envelope is normalized back
//! into a single assistant message.

pub mod bedrock;
pub mod dispatch;
pub mod json;
pub mod laws;
pub mod model;
pub mod requests;
pub mod responses;
pub mod wire;
