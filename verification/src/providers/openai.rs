//! The OpenAI provider. It answers with a fixed reply and reaches no
//! remote service.

use vstd::prelude::*;
use std::collections::HashMap;
use crate::models::policy::PolicyContext;
use crate::text::owned;

verus! {

/// A chat request.
pub struct ChatCompletionRequest {
    pub messages: Vec<ChatMessage>,
    pub model: String,
    pub max_tokens: Option<u32>,
    /// Bit pattern of the binary32 sampling temperature.
    pub temperature: Option<u32>,
    pub metadata: Option<HashMap<String, String>>,
}

/// One message of a chat, with the role of who wrote it.
pub struct ChatMessage {
    pub role: String,
    pub content: String,
}

/// The answer to a chat request.
pub struct ChatCompletionResponse {
    pub id: String,
    pub choices: Vec<Choice>,
    pub usage: Usage,
    pub model: String,
}

/// One of the answers that a response offers.
pub struct Choice {
    pub index: u32,
    pub message: ChatMessage,
    pub finish_reason: Option<String>,
}

/// How many tokens a request and its answer took.
#[derive(Clone, Copy, Debug, PartialEq, Eq, Structural)]
pub struct Usage {
    pub prompt_tokens: u32,
    pub completion_tokens: u32,
    pub total_tokens: u32,
}

/// Why a provider could not be set up or could not answer. This provider
/// reaches nothing that could fail, and never gives the error.
#[derive(Clone, Copy, Debug, PartialEq, Eq, Structural)]
pub enum ProviderError {
    Unavailable,
}

/// The provider that stands for OpenAI.
pub struct OpenAIProvider {}

/// Whether a response is the provider's fixed reply for `model`.
pub open spec fn is_fixed_reply(response: ChatCompletionResponse, model: Seq<char>) -> bool {
    &&& response.id@ == "mock-123"@
    &&& response.model@ == model
    &&& response.usage == (Usage { prompt_tokens: 10, completion_tokens: 20, total_tokens: 30 })
    &&& response.choices@.len() == 1
    &&& response.choices@[0].index == 0
    &&& response.choices@[0].message.role@ == "assistant"@
    &&& response.choices@[0].message.content@
        == "This is a mock response. Real implementation will proxy to OpenAI."@
    &&& response.choices@[0].finish_reason matches Some(reason) && reason@ == "stop"@
}

impl OpenAIProvider {
    /// Sets the provider up. This always succeeds.
    pub fn new() -> (r: Result<OpenAIProvider, ProviderError>)
        ensures
            r is Ok,
    {
        Ok(OpenAIProvider {  })
    }

    /// Answers a chat request with the fixed reply: one assistant message,
    /// finished by `stop`, for the model that the request names.
    pub fn chat_completions(&self, request: ChatCompletionRequest, policy_context: &PolicyContext) -> (r:
        Result<ChatCompletionResponse, ProviderError>)
        ensures
            r matches Ok(response) && is_fixed_reply(response, request.model@),
    {
        let mut choices: Vec<Choice> = Vec::new();
        choices.push(
            Choice {
                index: 0,
                message: ChatMessage {
                    role: owned("assistant"),
                    content: owned(
                        "This is a mock response. Real implementation will proxy to OpenAI.",
                    ),
                },
                finish_reason: Some(owned("stop")),
            },
        );
        let usage = Usage { prompt_tokens: 10, completion_tokens: 20, total_tokens: 30 };
        Ok(ChatCompletionResponse { id: owned("mock-123"), choices, usage, model: request.model })
    }
}

} // verus!
