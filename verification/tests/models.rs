use alaya_agent::models::{image_prompt, ChatError, GenAudioModel, GenImgModel};
use alaya_agent::Message;
use std::sync::Arc;

fn provider() -> Arc<String> {
    Arc::new("openrouter".to_string())
}

#[test]
fn gen_img_model_test_model_provider_mapping() {
    let mut model = GenImgModel::new();
    model.add_models_for_provider(
        &["black-forest-labs/flux.2-klein-4b", "black-forest-labs/flux.1-pro"],
        provider(),
    );

    assert!(model.get_provider("black-forest-labs/flux.2-klein-4b").is_ok());
    assert!(model.get_provider("black-forest-labs/flux.1-pro").is_ok());
    assert_eq!(model.provider_count(), 2);
}

#[test]
fn gen_img_model_test_set_active_model() {
    let mut model = GenImgModel::new();
    model.add_model_provider("black-forest-labs/flux.2-klein-4b", provider());

    let result = model.set_active_model("black-forest-labs/flux.2-klein-4b");
    assert!(result.is_ok());
    assert_eq!(model.active_model(), Some("black-forest-labs/flux.2-klein-4b"));

    let result = model.set_active_model("non-existent-model");
    assert!(result.is_err());
    assert!(matches!(result, Err(ChatError::ModelNotFound(_))));
}

#[test]
fn gen_img_model_test_builder_methods() {
    let model = GenImgModel::<Arc<String>>::new()
        .with_aspect_ratio("16:9".to_string())
        .with_image_size("2K".to_string());

    assert_eq!(model.aspect_ratio(), "16:9");
    assert_eq!(model.image_size(), "2K");
}

#[test]
fn gen_audio_model_test_model_provider_mapping() {
    let mut model = GenAudioModel::new();
    model.add_models_for_provider(
        &["google/lyria-3-clip-preview", "google/lyria-3-pro-preview"],
        provider(),
    );

    assert!(model.get_provider("google/lyria-3-clip-preview").is_ok());
    assert!(model.get_provider("google/lyria-3-pro-preview").is_ok());
    assert_eq!(model.provider_count(), 2);
}

#[test]
fn gen_audio_model_test_set_active_model() {
    let mut model = GenAudioModel::new();
    model.add_model_provider("google/lyria-3-clip-preview", provider());

    let result = model.set_active_model("google/lyria-3-clip-preview");
    assert!(result.is_ok());
    assert_eq!(model.active_model(), Some("google/lyria-3-clip-preview"));

    let result = model.set_active_model("non-existent-model");
    assert!(result.is_err());
    assert!(matches!(result, Err(ChatError::ModelNotFound(_))));
}

#[test]
fn gen_audio_model_test_builder_methods() {
    let model = GenAudioModel::<Arc<String>>::new()
        .with_audio_format("mp3".to_string())
        .with_voice("alloy".to_string());

    assert_eq!(model.audio_format(), "mp3");
    assert_eq!(model.voice(), Some("alloy"));
    let config = model.audio_config();
    assert_eq!(config.format, "mp3");
    assert_eq!(config.voice.as_deref(), Some("alloy"));
}

#[test]
fn image_prompt_joins_trimmed_contents_with_a_blank_line() {
    let messages = vec![
        Message::system(" visual direction "),
        Message::user("   "),
        Message::user("cinematic landscape\n"),
    ];
    assert_eq!(image_prompt(&messages).as_deref(), Some("visual direction\n\ncinematic landscape"));
    assert_eq!(image_prompt(&vec![Message::user(" \t")]), None);
}

#[test]
fn image_request_uses_the_active_model_and_settings() {
    let mut model = GenImgModel::new().with_aspect_ratio("16:9".to_string());
    let messages = vec![Message::system("visual direction"), Message::user("cinematic landscape")];
    assert!(matches!(model.image_request(&messages), Err(ChatError::ModelNotFound(_))));
    model.add_model_provider("krea/krea-2-medium-turbo", provider());
    model.set_active_model("krea/krea-2-medium-turbo").unwrap();
    let (p, request) = model.image_request(&messages).unwrap();
    assert_eq!(p.as_str(), "openrouter");
    assert_eq!(request.model, "krea/krea-2-medium-turbo");
    assert_eq!(request.prompt, "visual direction\n\ncinematic landscape");
    assert_eq!(request.aspect_ratio.as_deref(), Some("16:9"));
    assert_eq!(request.resolution.as_deref(), Some("1K"));
    assert!(matches!(model.image_request(&vec![Message::user(" ")]), Err(ChatError::NoResponse)));
}

#[test]
fn audio_request_streams_text_and_audio() {
    let mut model = GenAudioModel::new();
    model.add_model_provider("google/lyria-3-clip-preview", provider());
    model.set_active_model("google/lyria-3-clip-preview").unwrap();
    let (_, wire) = model.audio_request(vec![Message::user("Generate a short piano loop")]).unwrap();
    assert_eq!(wire.stream, Some(true));
    assert_eq!(wire.modalities, Some(vec!["text".to_string(), "audio".to_string()]));
    assert_eq!(wire.audio.unwrap().format, "wav");
}
