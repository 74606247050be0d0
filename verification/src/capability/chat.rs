//! Chat requests and streamed chunks.
use vstd::prelude::*;

use crate::message::{Message, ToolCall, ToolDef};
use crate::text::IntoText;
use crate::usage::Usage;

verus! {

/// How much reasoning is asked for, independent of the vendor. Whether it is
/// sent as `reasoning_effort` or as `thinking` is the protocol layer's choice.
#[derive(Debug, Clone, PartialEq, Eq)]
pub struct Reasoning {
    /// OpenAI style: `low` / `medium` / `high`.
    pub effort: Option<String>,
    /// DeepSeek style: thinking mode on or off.
    pub thinking: Option<bool>,
}

impl Default for Reasoning {
    fn default() -> (reasoning: Self)
        ensures
            reasoning.effort is None,
            reasoning.thinking is None,
    {
        Reasoning { effort: None, thinking: None }
    }
}

/// One chat call. There is no transport detail here: no `stream` switch and no
/// bag of vendor fields.
#[derive(Debug, Clone)]
pub struct ChatRequest {
    /// The model name: the routing key and a required field of the body.
    pub model: String,
    pub messages: Vec<Message>,
    /// The sampling temperature, as the bits of an IEEE-754 `f32`.
    pub temperature: Option<u32>,
    pub max_tokens: Option<u32>,
    /// Tools on offer; the protocol layer encodes them.
    pub tools: Option<Vec<ToolDef>>,
    /// Ask the model for a JSON object.
    pub response_format_json: bool,
    /// Ask a streamed response to report token usage.
    pub include_usage: bool,
    pub reasoning: Reasoning,
}

impl ChatRequest {
    pub fn new<M: IntoText>(model: M, messages: Vec<Message>) -> (request: Self)
        ensures
            request.model@ == model.text_view(),
            request.messages == messages,
            request.temperature is None,
            request.max_tokens is None,
            request.tools is None,
            !request.response_format_json,
            !request.include_usage,
            request.reasoning.effort is None,
            request.reasoning.thinking is None,
    {
        ChatRequest {
            model: model.into_text(),
            messages,
            temperature: None,
            max_tokens: None,
            tools: None,
            response_format_json: false,
            include_usage: false,
            reasoning: Reasoning::default(),
        }
    }

    pub fn with_messages(self, messages: Vec<Message>) -> (request: Self)
        ensures
            request == (ChatRequest { messages, ..self }),
    {
        ChatRequest { messages, ..self }
    }

    /// Sets the temperature, given as the bits of an `f32` (`f32::to_bits`).
    pub fn with_temperature_bits(self, temperature: u32) -> (request: Self)
        ensures
            request == (ChatRequest { temperature: Some(temperature), ..self }),
    {
        ChatRequest { temperature: Some(temperature), ..self }
    }

    pub fn with_max_tokens(self, max_tokens: u32) -> (request: Self)
        ensures
            request == (ChatRequest { max_tokens: Some(max_tokens), ..self }),
    {
        ChatRequest { max_tokens: Some(max_tokens), ..self }
    }

    pub fn with_tools(self, tools: Option<Vec<ToolDef>>) -> (request: Self)
        ensures
            request == (ChatRequest { tools, ..self }),
    {
        ChatRequest { tools, ..self }
    }

    pub fn with_response_format_json(self) -> (request: Self)
        ensures
            request == (ChatRequest { response_format_json: true, ..self }),
    {
        ChatRequest { response_format_json: true, ..self }
    }

    pub fn with_stream_usage(self, include_usage: bool) -> (request: Self)
        ensures
            request == (ChatRequest { include_usage, ..self }),
    {
        ChatRequest { include_usage, ..self }
    }

    pub fn with_reasoning_effort<E: IntoText>(self, reasoning_effort: E) -> (request: Self)
        ensures
            request.model == self.model,
            request.messages == self.messages,
            request.temperature == self.temperature,
            request.max_tokens == self.max_tokens,
            request.tools == self.tools,
            request.response_format_json == self.response_format_json,
            request.include_usage == self.include_usage,
            request.reasoning.thinking == self.reasoning.thinking,
            request.reasoning.effort matches Some(e) && e@ == reasoning_effort.text_view(),
    {
        let effort = reasoning_effort.into_text();
        ChatRequest {
            reasoning: Reasoning { effort: Some(effort), thinking: self.reasoning.thinking },
            ..self
        }
    }

    pub fn with_thinking(self, enabled: bool) -> (request: Self)
        ensures
            request.model == self.model,
            request.messages == self.messages,
            request.temperature == self.temperature,
            request.max_tokens == self.max_tokens,
            request.tools == self.tools,
            request.response_format_json == self.response_format_json,
            request.include_usage == self.include_usage,
            request.reasoning.effort == self.reasoning.effort,
            request.reasoning.thinking == Some(enabled),
    {
        let thinking = Some(enabled);
        ChatRequest { reasoning: Reasoning { effort: self.reasoning.effort, thinking }, ..self }
    }
}

/// One increment of a streamed response.
#[derive(Debug, Clone)]
pub struct ChatChunk {
    pub content: String,
    pub reasoning_content: String,
    pub is_finished: bool,
    pub finish_reason: Option<String>,
    pub tool_calls: Option<Vec<ToolCall>>,
    pub usage: Option<Usage>,
}

} // verus!
