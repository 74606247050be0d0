//! Wire structures of the OpenAI-compatible protocol, and the mapping of
//! a domain chat request into a request body.
use vstd::prelude::*;

use crate::capability::ChatRequest;
use crate::message::{clone_messages, opt_text, Message, MessageRole, ToolCall, ToolDef};
use crate::usage::Usage;

verus! {

// ----------------------------------------------------------------------------
// Request
// ----------------------------------------------------------------------------

/// The body of `POST /chat/completions`.
#[derive(Debug, Clone)]
pub struct WireChatRequest {
    pub model: String,
    pub messages: Vec<Message>,
    pub stream: Option<bool>,
    /// The sampling temperature, as the bits of an IEEE-754 `f32`.
    pub temperature: Option<u32>,
    pub max_tokens: Option<u32>,
    pub tools: Option<Vec<WireTool>>,
    pub response_format: Option<WireResponseFormat>,
    pub reasoning_effort: Option<String>,
    pub thinking: Option<WireThinking>,
    pub stream_options: Option<WireStreamOptions>,
    pub modalities: Option<Vec<String>>,
    pub audio: Option<WireAudioConfig>,
}

#[derive(Debug, Clone)]
pub struct WireTool {
    pub tool_type: &'static str,
    pub function: WireToolFunction,
}

#[derive(Debug, Clone)]
pub struct WireToolFunction {
    pub name: String,
    pub description: String,
    pub parameters: serde_json::Value,
}

#[derive(Debug, Clone)]
pub struct WireResponseFormat {
    pub response_type: &'static str,
}

#[derive(Debug, Clone)]
pub struct WireThinking {
    pub thinking_type: &'static str,
}

#[derive(Debug, Clone)]
pub struct WireStreamOptions {
    pub include_usage: bool,
}

#[derive(Debug, Clone)]
pub struct WireAudioConfig {
    pub format: String,
    pub voice: Option<String>,
}

/// `tool` is the wire form of `def`: a `function` tool with the same name,
/// description and parameters.
pub open spec fn encodes_tool(tool: WireTool, def: ToolDef) -> bool {
    &&& tool.tool_type@ == "function"@
    &&& tool.function.name@ == def.name@
    &&& tool.function.description@ == def.description@
    &&& tool.function.parameters == def.parameters
}

/// `tools` encode `defs`, one for one and in order.
pub open spec fn encodes_tools(tools: Seq<WireTool>, defs: Seq<ToolDef>) -> bool {
    &&& tools.len() == defs.len()
    &&& forall|i: int| 0 <= i < defs.len() ==> encodes_tool(#[trigger] tools[i], defs[i])
}

/// The wire form of the thinking switch.
pub open spec fn thinking_type_of(enabled: bool) -> Seq<char> {
    if enabled {
        "enabled"@
    } else {
        "disabled"@
    }
}

impl WireChatRequest {
    /// A body with only the model and the messages.
    pub fn base(model: String, messages: Vec<Message>) -> (wire: Self)
        ensures
            wire.model == model,
            wire.messages == messages,
            wire.stream is None,
            wire.temperature is None,
            wire.max_tokens is None,
            wire.tools is None,
            wire.response_format is None,
            wire.reasoning_effort is None,
            wire.thinking is None,
            wire.stream_options is None,
            wire.modalities is None,
            wire.audio is None,
    {
        WireChatRequest {
            model,
            messages,
            stream: None,
            temperature: None,
            max_tokens: None,
            tools: None,
            response_format: None,
            reasoning_effort: None,
            thinking: None,
            stream_options: None,
            modalities: None,
            audio: None,
        }
    }

    /// The body for a domain request. Every vendor field is encoded here.
    pub fn from(request: &ChatRequest) -> (wire: Self)
        ensures
            wire.model@ == request.model@,
            wire.messages.deep_view() == request.messages.deep_view(),
            wire.stream is None,
            wire.temperature == request.temperature,
            wire.max_tokens == request.max_tokens,
            match request.tools {
                Some(defs) => wire.tools matches Some(tools) && encodes_tools(tools@, defs@),
                None => wire.tools is None,
            },
            match wire.response_format {
                Some(f) => request.response_format_json && f.response_type@ == "json_object"@,
                None => !request.response_format_json,
            },
            opt_text(wire.reasoning_effort) == opt_text(request.reasoning.effort),
            match request.reasoning.thinking {
                Some(enabled) => wire.thinking matches Some(t) && t.thinking_type@
                    == thinking_type_of(enabled),
                None => wire.thinking is None,
            },
            match wire.stream_options {
                Some(o) => request.include_usage && o.include_usage,
                None => !request.include_usage,
            },
            wire.modalities is None,
            wire.audio is None,
    {
        let mut wire = Self::base(request.model.clone(), clone_messages(&request.messages));
        wire.temperature = request.temperature;
        wire.max_tokens = request.max_tokens;
        match &request.tools {
            Some(defs) => {
                wire.tools = Some(encode_tools(defs));
            },
            None => {},
        }
        if request.response_format_json {
            wire.response_format = Some(WireResponseFormat { response_type: "json_object" });
        }
        if request.include_usage {
            wire.stream_options = Some(WireStreamOptions { include_usage: true });
        }
        wire.reasoning_effort = match &request.reasoning.effort {
            Some(effort) => Some(effort.clone()),
            None => None,
        };
        match request.reasoning.thinking {
            Some(enabled) => {
                let thinking_type = if enabled {
                    "enabled"
                } else {
                    "disabled"
                };
                wire.thinking = Some(WireThinking { thinking_type });
            },
            None => {},
        }
        wire
    }

    /// The same body, asking for a streamed response.
    pub fn streaming(self) -> (wire: Self)
        ensures
            wire == (WireChatRequest { stream: Some(true), ..self }),
    {
        WireChatRequest { stream: Some(true), ..self }
    }
}

/// The wire form of tool definitions, in order.
fn encode_tools(defs: &Vec<ToolDef>) -> (tools: Vec<WireTool>)
    ensures
        encodes_tools(tools@, defs@),
{
    let mut tools: Vec<WireTool> = Vec::new();
    let mut i: usize = 0;
    while i < defs.len()
        invariant
            i <= defs.len(),
            tools@.len() == i,
            forall|j: int| 0 <= j < i ==> encodes_tool(#[trigger] tools@[j], defs@[j]),
        decreases defs.len() - i,
    {
        let def = &defs[i];
        let tool = WireTool {
            tool_type: "function",
            function: WireToolFunction {
                name: def.name.clone(),
                description: def.description.clone(),
                parameters: def.parameters.clone(),
            },
        };
        tools.push(tool);
        i = i + 1;
    }
    tools
}

// ----------------------------------------------------------------------------
// Token usage
// ----------------------------------------------------------------------------

/// Token usage as vendors report it; `total_tokens` may be missing.
#[derive(Debug, Clone, Copy, PartialEq, Eq, Structural)]
pub struct WireUsage {
    pub prompt_tokens: u32,
    pub completion_tokens: u32,
    pub total_tokens: Option<u32>,
    pub prompt_cache_hit_tokens: Option<u32>,
    pub prompt_cache_miss_tokens: Option<u32>,
}

impl WireUsage {
    /// The reported total, or prompt plus completion tokens when none was
    /// reported.
    pub open spec fn total_spec(&self) -> int {
        match self.total_tokens {
            Some(t) => t as int,
            None => self.prompt_tokens + self.completion_tokens,
        }
    }

    /// The sum is computed in either case, so it must fit in a `u32`.
    pub open spec fn sum_fits(&self) -> bool {
        self.prompt_tokens + self.completion_tokens <= u32::MAX
    }

    pub fn total(&self) -> (total: u32)
        requires
            self.sum_fits(),
        ensures
            total == self.total_spec(),
    {
        let sum = self.prompt_tokens + self.completion_tokens;
        match self.total_tokens {
            Some(t) => t,
            None => sum,
        }
    }
}

/// The domain usage of a wire usage; the total is always filled in.
pub open spec fn usage_of(value: WireUsage) -> Usage {
    Usage {
        prompt_tokens: value.prompt_tokens,
        completion_tokens: value.completion_tokens,
        total_tokens: value.total_spec() as u32,
        prompt_cache_hit_tokens: value.prompt_cache_hit_tokens,
        prompt_cache_miss_tokens: value.prompt_cache_miss_tokens,
    }
}

impl Usage {
    /// The domain usage of a wire usage; the total is always filled in.
    pub fn from_wire(value: WireUsage) -> (usage: Usage)
        requires
            value.sum_fits(),
        ensures
            usage == usage_of(value),
    {
        Usage {
            prompt_tokens: value.prompt_tokens,
            completion_tokens: value.completion_tokens,
            total_tokens: value.total(),
            prompt_cache_hit_tokens: value.prompt_cache_hit_tokens,
            prompt_cache_miss_tokens: value.prompt_cache_miss_tokens,
        }
    }
}

// ----------------------------------------------------------------------------
// Response
// ----------------------------------------------------------------------------

#[derive(Debug, Clone)]
pub struct WireChoiceImgUrl {
    pub url: String,
}

#[derive(Debug, Clone)]
pub struct WireChoiceImg {
    pub img_type: String,
    pub image_url: WireChoiceImgUrl,
}

#[derive(Debug, Clone)]
pub struct WireChoiceAudio {
    pub data: Option<String>,
    pub transcript: Option<String>,
}

/// The message of a choice (non-streamed response).
#[derive(Debug, Clone)]
pub struct WireChoiceMessage {
    pub role: MessageRole,
    pub content: Option<String>,
    /// Reasoning text (DeepSeek `reasoning_content`, OpenRouter `reasoning`).
    pub reasoning_content: Option<String>,
    pub images: Option<Vec<WireChoiceImg>>,
    pub tool_calls: Option<Vec<ToolCall>>,
    pub tool_call_id: Option<String>,
}

/// One choice of a non-streamed response.
#[derive(Debug, Clone)]
pub struct WireChoice {
    pub index: u32,
    pub message: WireChoiceMessage,
    pub finish_reason: Option<String>,
}

/// A complete non-streamed response.
#[derive(Debug, Clone)]
pub struct WireResponse {
    pub id: String,
    pub object: String,
    pub created: u64,
    pub model: String,
    pub choices: Vec<WireChoice>,
    pub usage: Option<WireUsage>,
    pub system_fingerprint: Option<String>,
}

/// The increment of a streamed choice.
#[derive(Debug, Clone)]
pub struct WireDelta {
    pub role: Option<MessageRole>,
    pub content: Option<String>,
    /// Reasoning text (DeepSeek `reasoning_content`, OpenRouter `reasoning`).
    pub reasoning_content: Option<String>,
    pub audio: Option<WireChoiceAudio>,
    pub tool_calls: Option<Vec<ToolCall>>,
}

impl Default for WireDelta {
    fn default() -> (delta: Self)
        ensures
            delta.role is None,
            delta.content is None,
            delta.reasoning_content is None,
            delta.audio is None,
            delta.tool_calls is None,
    {
        WireDelta { role: None, content: None, reasoning_content: None, audio: None, tool_calls: None }
    }
}

/// One choice of a streamed response chunk.
#[derive(Debug, Clone)]
pub struct WireStreamChoice {
    pub index: u32,
    pub delta: WireDelta,
    pub finish_reason: Option<String>,
    pub logprobs: Option<serde_json::Value>,
}

/// One chunk of a streamed response.
#[derive(Debug, Clone)]
pub struct WireStreamResponse {
    pub id: String,
    pub object: String,
    pub created: u64,
    pub model: String,
    pub system_fingerprint: Option<String>,
    pub choices: Vec<WireStreamChoice>,
    pub usage: Option<WireUsage>,
}

} // verus!
