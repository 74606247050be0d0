use alaya_agent::capability::{ChatRequest, GenImgRequest};
use alaya_agent::Message;
use alaya_agent::capability::ModelError;
use alaya_agent::router::ModelRouter;
use std::sync::Arc;

type Router = ModelRouter<Arc<String>, Arc<String>, Arc<String>>;

fn handle(name: &str) -> Arc<String> {
    Arc::new(name.to_string())
}

#[test]
fn registration_is_keyed_by_model_and_capability() {
    let mut router = Router::new();
    router.add_chat_models(&["deepseek-chat", "deepseek-reasoner"], handle("deepseek"));
    router.add_image_models(&["black-forest-labs/flux.2-klein-4b"], handle("openrouter"));

    assert!(router.supports_chat("deepseek-chat"));
    assert!(router.supports_chat("deepseek-reasoner"));
    assert!(!router.supports_chat("black-forest-labs/flux.2-klein-4b"));
    assert!(router.supports_image("black-forest-labs/flux.2-klein-4b"));
    assert!(!router.supports_image("deepseek-chat"));
}

#[test]
fn first_registration_wins() {
    let mut router = Router::new();
    router.add_chat_model("m", handle("first"));
    router.add_chat_model("m", handle("second"));

    assert_eq!(router.chat_model_count(), 1);
    assert_eq!(router.route_chat("m").unwrap().as_str(), "first");
}

#[test]
fn unregistered_model_reports_capability_and_name() {
    let mut router = Router::new();
    router.add_audio_model("shared-model", handle("audio"));

    let error = router.route_chat("nope").expect_err("unregistered model should fail");
    assert!(matches!(
        error,
        ModelError::ModelNotFound { model, capability } if model == "nope" && capability == "chat"
    ));
    assert!(router.route_audio("shared-model").is_ok());
    assert!(matches!(
        router.route_image("shared-model"),
        Err(ModelError::ModelNotFound { capability: "image", .. })
    ));
}

#[test]
fn requests_are_dispatched_unchanged_to_the_first_handle() {

    let mut router = Router::new();
    router.add_chat_model("shared-model", handle("chat"));
    router.add_chat_model("shared-model", handle("later"));
    router.add_image_model("shared-model", handle("image"));

    let request = ChatRequest::new("shared-model", vec![Message::user("hi")]).with_max_tokens(7);
    let (chosen, passed) = router.dispatch_chat(request).unwrap();
    assert_eq!(chosen.as_str(), "chat");
    assert_eq!(passed.model, "shared-model");
    assert_eq!(passed.messages, vec![Message::user("hi")]);
    assert_eq!(passed.max_tokens, Some(7));

    let (chosen, _) = router.dispatch_image(GenImgRequest::new("shared-model", "a cat")).unwrap();
    assert_eq!(chosen.as_str(), "image");

    let missing = router.dispatch_chat(ChatRequest::new("other", Vec::new()));
    assert!(matches!(
        missing,
        Err(ModelError::ModelNotFound { ref model, capability: "chat" }) if model == "other"
    ));
}
