use alaya_agent::capability::{ChatRequest, GenAudioRequest, GenImgRequest};
use alaya_agent::message::ToolDef;

fn object_schema() -> serde_json::Value {
    serde_json::from_str("{\"type\":\"object\"}").unwrap()
}

#[test]
fn audio_options_belong_to_the_request() {
    let request = GenAudioRequest::new("model", "prompt").with_format("mp3").with_voice("alloy");

    assert_eq!(request.format.as_deref(), Some("mp3"));
    assert_eq!(request.voice.as_deref(), Some("alloy"));
}

#[test]
fn image_options_belong_to_the_request() {
    let request = GenImgRequest::new("model", "prompt").with_aspect_ratio("16:9").with_resolution("2K");

    assert_eq!(request.aspect_ratio.as_deref(), Some("16:9"));
    assert_eq!(request.resolution.as_deref(), Some("2K"));
}

#[test]
fn request_builders_only_touch_domain_fields() {
    let request = ChatRequest::new("model", Vec::new())
        .with_response_format_json()
        .with_reasoning_effort("high")
        .with_thinking(true)
        .with_temperature_bits(0.2f32.to_bits())
        .with_max_tokens(512)
        .with_stream_usage(true);

    assert!(request.response_format_json);
    assert!(request.include_usage);
    assert_eq!(request.temperature.map(f32::from_bits), Some(0.2));
    assert_eq!(request.max_tokens, Some(512));
    assert_eq!(request.reasoning.effort.as_deref(), Some("high"));
    assert_eq!(request.reasoning.thinking, Some(true));
}

#[test]
fn tools_stay_domain_typed() {
    let tool = ToolDef {
        name: "read_file".to_string(),
        description: "read".to_string(),
        parameters: object_schema(),
    };
    let request = ChatRequest::new("model", Vec::new()).with_tools(Some(vec![tool]));

    assert_eq!(request.tools.unwrap()[0].name, "read_file");
}

#[test]
fn new_requests_start_without_options() {
    let request = ChatRequest::new(String::from("m"), Vec::new());
    assert_eq!(request.model, "m");
    assert!(request.temperature.is_none());
    assert!(request.tools.is_none());
    assert!(!request.response_format_json);
    assert!(!request.include_usage);
    assert!(request.reasoning.effort.is_none());
    assert!(request.reasoning.thinking.is_none());

    let audio = GenAudioRequest::new("m", "p");
    assert!(audio.format.is_none() && audio.voice.is_none());
    let image = GenImgRequest::new("m", "p");
    assert!(image.resolution.is_none() && image.aspect_ratio.is_none());
}
