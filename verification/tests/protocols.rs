use alaya_agent::protocols::openai::{stream_action, StreamAction};
use alaya_agent::transport::TransportError;
use alaya_agent::protocols::openai::lenient::{parse_decimal_u32, u32_of_signed, u32_of_unsigned};
use alaya_agent::capability::{ChatRequest, GenAudioRequest, GenImgRequest, ModelError};
use alaya_agent::message::{ToolCall, ToolDef};
use alaya_agent::protocols::openai::wire::{
    WireChatRequest, WireChoice, WireChoiceAudio, WireChoiceMessage, WireDelta, WireResponse,
    WireStreamChoice, WireStreamResponse, WireUsage,
};
use alaya_agent::protocols::openai::{
    audio_wire_request, chunk_from_wire, is_done_marker, message_from_response,
    message_from_wire, AudioAccumulator,
};
use alaya_agent::protocols::openrouter::wire::{
    generated_image_to_url, WireGeneratedImage, WireImageResponse,
};
use alaya_agent::protocols::openrouter::{image_response, image_wire_request};
use alaya_agent::{Message, MessageRole, Usage};

fn object_schema() -> serde_json::Value {
    serde_json::from_str("{\"type\":\"object\"}").unwrap()
}

fn wire_message(role: MessageRole, content: Option<&str>) -> WireChoiceMessage {
    WireChoiceMessage {
        role,
        content: content.map(str::to_string),
        reasoning_content: None,
        images: None,
        tool_calls: None,
        tool_call_id: None,
    }
}

fn stream_chunk(choices: Vec<WireStreamChoice>, usage: Option<WireUsage>) -> WireStreamResponse {
    WireStreamResponse {
        id: "chunk".to_string(),
        object: "chat.completion.chunk".to_string(),
        created: 1,
        model: "m".to_string(),
        system_fingerprint: None,
        choices,
        usage,
    }
}

fn audio_choice(data: &str, transcript: &str) -> WireStreamChoice {
    WireStreamChoice {
        index: 0,
        delta: WireDelta {
            audio: Some(WireChoiceAudio {
                data: Some(data.to_string()),
                transcript: Some(transcript.to_string()),
            }),
            ..WireDelta::default()
        },
        finish_reason: None,
        logprobs: None,
    }
}

#[test]
fn generated_image_prefers_url_and_falls_back_to_data_url() {
    assert_eq!(
        generated_image_to_url(WireGeneratedImage {
            url: Some("https://example.com/a.png".to_string()),
            b64_json: Some("ignored".to_string()),
            media_type: None,
        })
        .as_deref(),
        Some("https://example.com/a.png")
    );
    assert_eq!(
        generated_image_to_url(WireGeneratedImage {
            url: None,
            b64_json: Some("aW1hZ2U=".to_string()),
            media_type: Some("image/webp".to_string()),
        })
        .as_deref(),
        Some("data:image/webp;base64,aW1hZ2U=")
    );
    assert_eq!(
        generated_image_to_url(WireGeneratedImage { url: None, b64_json: None, media_type: None }),
        None
    );
}

#[test]
fn blank_urls_and_foreign_media_types_fall_back() {
    assert_eq!(
        generated_image_to_url(WireGeneratedImage {
            url: Some("  ".to_string()),
            b64_json: Some("QQ==".to_string()),
            media_type: Some("text/plain".to_string()),
        })
        .as_deref(),
        Some("data:image/png;base64,QQ==")
    );
    assert_eq!(
        generated_image_to_url(WireGeneratedImage {
            url: None,
            b64_json: Some(" \n".to_string()),
            media_type: None,
        }),
        None
    );
}

#[test]
fn chat_request_maps_domain_fields_to_wire_body() {
    let request = ChatRequest::new("deepseek-v4-pro", vec![Message::user("hello")])
        .with_temperature_bits(0.25f32.to_bits())
        .with_max_tokens(128)
        .with_response_format_json()
        .with_reasoning_effort("high")
        .with_thinking(true)
        .with_stream_usage(true)
        .with_tools(Some(vec![ToolDef {
            name: "read_file".to_string(),
            description: "read".to_string(),
            parameters: object_schema(),
        }]));

    let wire = WireChatRequest::from(&request);

    assert_eq!(wire.model, "deepseek-v4-pro");
    assert_eq!(wire.temperature.map(f32::from_bits), Some(0.25));
    assert_eq!(wire.max_tokens, Some(128));
    assert_eq!(wire.response_format.as_ref().unwrap().response_type, "json_object");
    assert_eq!(wire.reasoning_effort.as_deref(), Some("high"));
    assert_eq!(wire.thinking.as_ref().unwrap().thinking_type, "enabled");
    assert!(wire.stream_options.as_ref().unwrap().include_usage);
    let tools = wire.tools.as_ref().unwrap();
    assert_eq!(tools[0].tool_type, "function");
    assert_eq!(tools[0].function.name, "read_file");
    assert!(wire.stream.is_none());
    assert!(wire.modalities.is_none());
    assert_eq!(wire.messages, vec![Message::user("hello")]);
}

#[test]
fn plain_chat_request_leaves_optional_fields_out() {
    let wire = WireChatRequest::from(&ChatRequest::new("m", Vec::new()).with_thinking(false));
    assert!(wire.tools.is_none());
    assert!(wire.response_format.is_none());
    assert!(wire.stream_options.is_none());
    assert!(wire.reasoning_effort.is_none());
    assert_eq!(wire.thinking.unwrap().thinking_type, "disabled");
    let streaming = WireChatRequest::from(&ChatRequest::new("m", Vec::new())).streaming();
    assert_eq!(streaming.stream, Some(true));
}

#[test]
fn wire_messages_become_domain_messages() {
    let mut assistant = wire_message(MessageRole::Assistant, None);
    assistant.reasoning_content = Some("because".to_string());
    assistant.tool_calls = Some(vec![ToolCall {
        id: "c1".to_string(),
        name: "read".to_string(),
        arguments: serde_json::Value::Null,
    }]);
    match message_from_wire(assistant) {
        Message::Assistant { content, reasoning_content, tool_calls } => {
            assert_eq!(content, "");
            assert_eq!(reasoning_content.as_deref(), Some("because"));
            assert_eq!(tool_calls.unwrap()[0].id, "c1");
        },
        other => panic!("unexpected {other:?}"),
    }
    let mut tool = wire_message(MessageRole::Tool, Some("out"));
    tool.tool_call_id = Some("c1".to_string());
    assert_eq!(
        message_from_wire(tool),
        Message::Tool { tool_call_id: "c1".to_string(), content: "out".to_string() }
    );
    assert_eq!(message_from_wire(wire_message(MessageRole::User, Some("u"))), Message::user("u"));
}

#[test]
fn a_response_without_choices_is_no_response() {
    let mut response = WireResponse {
        id: "r".to_string(),
        object: "chat.completion".to_string(),
        created: 1,
        model: "m".to_string(),
        choices: Vec::new(),
        usage: None,
        system_fingerprint: None,
    };
    assert!(matches!(message_from_response(response.clone()), Err(ModelError::NoResponse)));
    response.choices.push(WireChoice {
        index: 0,
        message: wire_message(MessageRole::Assistant, Some("hello")),
        finish_reason: Some("stop".to_string()),
    });
    assert_eq!(message_from_response(response).unwrap(), Message::assistant("hello"));
}

#[test]
fn stream_chunks_map_the_first_choice_and_usage() {
    let choice = WireStreamChoice {
        index: 0,
        delta: WireDelta { content: Some("llo".to_string()), ..WireDelta::default() },
        finish_reason: Some("stop".to_string()),
        logprobs: None,
    };
    let usage = WireUsage {
        prompt_tokens: 3,
        completion_tokens: 4,
        total_tokens: None,
        prompt_cache_hit_tokens: Some(1),
        prompt_cache_miss_tokens: None,
    };
    let chunk = chunk_from_wire(stream_chunk(vec![choice], Some(usage)));
    assert_eq!(chunk.content, "llo");
    assert_eq!(chunk.reasoning_content, "");
    assert!(chunk.is_finished);
    assert_eq!(chunk.finish_reason.as_deref(), Some("stop"));
    assert_eq!(
        chunk.usage,
        Some(Usage {
            prompt_tokens: 3,
            completion_tokens: 4,
            total_tokens: 7,
            prompt_cache_hit_tokens: Some(1),
            prompt_cache_miss_tokens: None,
        })
    );

    let empty = chunk_from_wire(stream_chunk(Vec::new(), None));
    assert!(empty.is_finished);
    assert_eq!(empty.finish_reason.as_deref(), Some("no_choices"));
    assert!(empty.usage.is_none());
}

#[test]
fn reported_totals_win_over_the_sum() {
    let usage = WireUsage {
        prompt_tokens: 1,
        completion_tokens: 2,
        total_tokens: Some(10),
        prompt_cache_hit_tokens: None,
        prompt_cache_miss_tokens: None,
    };
    assert_eq!(usage.total(), 10);
    assert_eq!(WireUsage { total_tokens: None, ..usage }.total(), 3);
    assert_eq!(Usage::from_wire(usage).total_tokens, 10);
}

#[test]
fn done_marker_is_recognised_after_trimming() {
    assert!(is_done_marker("[DONE]"));
    assert!(is_done_marker("  [DONE]\n"));
    assert!(!is_done_marker("[DONE] x"));
    assert!(!is_done_marker("{}"));
}

#[test]
fn audio_requests_ask_for_text_and_audio() {
    let (wire, format) = audio_wire_request(GenAudioRequest::new("google/lyria-3-clip-preview", "Generate a short piano loop"));
    assert_eq!(format, "wav");
    assert_eq!(wire.model, "google/lyria-3-clip-preview");
    assert_eq!(wire.messages, vec![Message::user("Generate a short piano loop")]);
    assert_eq!(wire.modalities, Some(vec!["text".to_string(), "audio".to_string()]));
    let audio = wire.audio.unwrap();
    assert_eq!(audio.format, "wav");
    assert!(audio.voice.is_none());

    let (wire, format) = audio_wire_request(GenAudioRequest::new("m", "p").with_format("mp3").with_voice("alloy"));
    assert_eq!(format, "mp3");
    assert_eq!(wire.audio.unwrap().voice.as_deref(), Some("alloy"));
}

#[test]
fn audio_chunks_are_concatenated_in_order() {
    let mut acc = AudioAccumulator::new();
    acc.absorb(&stream_chunk(vec![audio_choice("abc", "hello ")], None));
    acc.absorb(&stream_chunk(vec![audio_choice("def", "world")], None));
    let response = acc.finish("wav".to_string()).unwrap();
    assert_eq!(response.audio_data, "abcdef");
    assert_eq!(response.transcript, "hello world");
    assert_eq!(response.format, "wav");

    let mut silent = AudioAccumulator::new();
    silent.absorb(&stream_chunk(Vec::new(), None));
    assert!(matches!(silent.finish("wav".to_string()), Err(ModelError::NoResponse)));
}

#[test]
fn gen_img_rejects_empty_prompt_without_calling_transport() {
    let error = image_wire_request(GenImgRequest::new("m", "   "))
        .expect_err("empty prompt should be rejected");
    assert!(matches!(error, ModelError::NoResponse));
}

#[test]
fn image_requests_and_responses_map_through() {
    let wire = image_wire_request(
        GenImgRequest::new("krea/krea-2-medium-turbo", "cinematic landscape")
            .with_resolution("1K")
            .with_aspect_ratio("16:9"),
    )
    .unwrap();
    assert_eq!(wire.model, "krea/krea-2-medium-turbo");
    assert_eq!(wire.prompt, "cinematic landscape");
    assert_eq!(wire.resolution.as_deref(), Some("1K"));
    assert_eq!(wire.aspect_ratio.as_deref(), Some("16:9"));

    let response = image_response(WireImageResponse {
        data: vec![
            WireGeneratedImage { b64_json: None, url: None, media_type: None },
            WireGeneratedImage {
                b64_json: Some("aW1hZ2U=".to_string()),
                url: None,
                media_type: Some("image/webp".to_string()),
            },
        ],
    })
    .unwrap();
    assert_eq!(response.image_urls, vec!["data:image/webp;base64,aW1hZ2U="]);
    assert!(matches!(
        image_response(WireImageResponse { data: Vec::new() }),
        Err(ModelError::NoResponse)
    ));
}

#[test]
fn stream_events_stop_skip_or_decode() {

    assert!(matches!(stream_action(Ok(" [DONE]\n".to_string())), StreamAction::Skip));
    assert!(matches!(
        stream_action(Ok("{\"id\":1}".to_string())),
        StreamAction::Decode(ref p) if p == "{\"id\":1}"
    ));
    assert!(matches!(
        stream_action(Err(TransportError::Stream("cut".to_string()))),
        StreamAction::Stop
    ));
}

#[test]
fn lenient_integers_read_like_the_standard_parser() {

    assert_eq!(parse_decimal_u32("14418"), Some(14418));
    assert_eq!(parse_decimal_u32("+7"), Some(7));
    assert_eq!(parse_decimal_u32("4294967295"), Some(u32::MAX));
    assert_eq!(parse_decimal_u32("4294967296"), None);
    assert_eq!(parse_decimal_u32(""), None);
    assert_eq!(parse_decimal_u32("+"), None);
    assert_eq!(parse_decimal_u32("-1"), None);
    assert_eq!(parse_decimal_u32(" 1"), None);
    assert_eq!(parse_decimal_u32("12.5"), None);
    for text in ["0", "00012", "+0", "99999999999999999999", "1a"] {
        assert_eq!(parse_decimal_u32(text), text.parse::<u32>().ok(), "{text}");
    }
    assert_eq!(u32_of_unsigned(5_000_000_000), None);
    assert_eq!(u32_of_unsigned(42), Some(42));
    assert_eq!(u32_of_signed(-3), None);
    assert_eq!(u32_of_signed(42), Some(42));
}
