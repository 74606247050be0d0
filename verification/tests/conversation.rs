use alaya_agent::conversation::{CacheUsageTotals, Conversation, ConversationConfig};
use alaya_agent::{Message, Usage};

fn usage() -> Usage {
    Usage {
        prompt_tokens: 10,
        completion_tokens: 2,
        total_tokens: 12,
        prompt_cache_hit_tokens: Some(4),
        prompt_cache_miss_tokens: Some(6),
    }
}

#[test]
fn one_shot_call_records_a_single_exchange_and_usage() {
    let mut conversation = Conversation::new("system".to_string(), ConversationConfig::default());
    conversation.push(Message::user("turn"));
    conversation.push(Message::assistant("answer"));
    conversation.record_usage(Some(usage()));

    let snapshot = conversation.snapshot();
    assert_eq!(snapshot.epoch, 0);
    assert_eq!(
        snapshot.messages,
        vec![Message::system("system"), Message::user("turn"), Message::assistant("answer"),]
    );
    assert_eq!(snapshot.usage.requests, 1);
    assert_eq!(snapshot.usage.prompt_tokens, 10);
}

#[test]
fn reset_preserves_the_system_message() {
    let mut conversation =
        Conversation::new("constructor prompt".to_string(), ConversationConfig::default());
    conversation.push(Message::user("previous turn"));

    conversation.reset();

    assert_eq!(conversation.snapshot().messages, vec![Message::system("constructor prompt")]);
    assert_eq!(conversation.snapshot().usage, CacheUsageTotals::default());
}

#[test]
fn reset_messages_truncates_to_system_but_keeps_usage() {
    let mut conversation = Conversation::new("system".to_string(), ConversationConfig::default());
    conversation.push(Message::user("attempt one"));
    conversation.push(Message::assistant("failed output"));
    conversation.record_usage(Some(usage()));

    conversation.reset_messages();

    let snapshot = conversation.snapshot();
    assert_eq!(snapshot.messages, vec![Message::system("system")]);
    assert_eq!(snapshot.epoch, 0);
    assert_eq!(snapshot.usage.requests, 1);
    assert_eq!(snapshot.usage.prompt_tokens, 10);
    assert_eq!(snapshot.usage.completion_tokens, 2);
}

#[test]
fn usage_totals_count_requests_with_and_without_usage() {
    let mut totals = CacheUsageTotals::default();
    totals.record(None);
    totals.record(Some(usage()));
    totals.record(Some(Usage { prompt_cache_hit_tokens: None, ..usage() }));
    assert_eq!(totals.requests, 3);
    assert_eq!(totals.requests_with_usage, 2);
    assert_eq!(totals.prompt_tokens, 20);
    assert_eq!(totals.completion_tokens, 4);
    assert_eq!(totals.prompt_cache_hit_tokens, 4);
    assert_eq!(totals.prompt_cache_miss_tokens, 12);
}

#[test]
fn default_config_keeps_the_historic_thresholds() {
    let config = ConversationConfig::default();
    assert_eq!(config.max_messages, 96);
    assert_eq!(config.max_chars, 512_000);
}

#[test]
fn messages_expose_content_and_reasoning() {
    let conversation = Conversation::new("s".to_string(), ConversationConfig::default());
    assert_eq!(conversation.messages().len(), 1);
    assert_eq!(conversation.messages()[0].content(), "s");
    let reasoning = Message::Assistant {
        content: "a".to_string(),
        reasoning_content: Some("r".to_string()),
        tool_calls: None,
    };
    assert_eq!(reasoning.reasoning_content(), Some("r"));
    assert_eq!(Message::user("u").reasoning_content(), None);
    assert_eq!(Message::Tool { tool_call_id: "1".to_string(), content: "t".to_string() }.content(), "t");
}

#[test]
fn requests_with_usage_never_exceed_requests() {
    let mut conversation = Conversation::new("system".to_string(), ConversationConfig::default());
    conversation.record_usage(None);
    conversation.record_usage(Some(usage()));
    conversation.reset_messages();
    conversation.record_usage(None);

    let totals = conversation.snapshot().usage;
    assert_eq!(totals.requests, 3);
    assert_eq!(totals.requests_with_usage, 1);
    assert_eq!(conversation.messages().len(), 1);
}
