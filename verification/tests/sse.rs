use alaya_agent::providers::sse::{
    drain_events, drain_final_events, drain_sse_frames, event_data_payload, feed_events, normalize_crlf,
    sse_frame_payload,
};

fn payload_json(payload: &str) -> serde_json::Value {
    serde_json::from_str(payload).expect("payload should be JSON")
}

#[test]
fn handles_split_chunks() {
    let mut buffer = Vec::new();
    buffer.extend_from_slice(b"data: {\"id\":\"abc\"");
    assert!(drain_events(&mut buffer).is_empty());

    buffer.extend_from_slice(b",\"object\":\"chat.completion.chunk\"}\n\n");
    let events = drain_events(&mut buffer);

    assert_eq!(events, vec!["{\"id\":\"abc\",\"object\":\"chat.completion.chunk\"}"]);
    assert!(buffer.is_empty());
}

#[test]
fn preserves_multibyte_payload_across_every_chunk_boundary() {
    let payload = "{\"content\":\"\u{94dc}\u{7247}\u{1f642}\"}".to_string();
    let frame = format!("data: {payload}\r\n\r\n");

    for split_at in 0..=frame.len() {
        let mut buffer = Vec::new();
        buffer.extend_from_slice(&frame.as_bytes()[..split_at]);
        let mut events = drain_events(&mut buffer);

        buffer.extend_from_slice(&frame.as_bytes()[split_at..]);
        events.extend(drain_events(&mut buffer));

        assert_eq!(events.len(), 1, "split_at={split_at}");
        assert_eq!(events[0], payload, "split_at={split_at}");
        assert!(buffer.is_empty(), "split_at={split_at}");
    }
}

#[test]
fn joins_multiple_data_lines_and_keeps_done_marker() {
    let mut buffer = b"data: {\"a\":1}\ndata: {\"b\":2}\n\ndata: [DONE]\n\n".to_vec();
    let events = drain_events(&mut buffer);

    assert_eq!(events, vec!["{\"a\":1}\n{\"b\":2}", "[DONE]"]);
    assert!(buffer.is_empty());
}

#[test]
fn ignores_whitespace_only_events() {
    let mut buffer = b"\n\ndata: {\"a\":1}\n\n".to_vec();

    assert_eq!(drain_events(&mut buffer), vec!["{\"a\":1}"]);
}

#[test]
fn test_drain_sse_frames_handles_split_chunks() {
    let mut buffer = Vec::new();
    buffer.extend_from_slice(b"data: {\"id\":\"abc\"");
    assert!(drain_sse_frames(&mut buffer).is_empty());

    buffer.extend_from_slice(b",\"object\":\"chat.completion.chunk\",\"created\":1,\"model\":\"m\",\"system_fingerprint\":null,\"choices\":[],\"usage\":null}\n\n");
    let frames = drain_sse_frames(&mut buffer);

    assert_eq!(frames.len(), 1);
    assert!(buffer.is_empty());
}

fn chunk_json(content: &str, finish_reason: &str) -> String {
    let finish = if finish_reason.is_empty() {
        "null".to_string()
    } else {
        format!("\"{finish_reason}\"")
    };
    format!(
        "{{\"id\":\"abc\",\"object\":\"chat.completion.chunk\",\"created\":1,\"model\":\"test-model\",\"system_fingerprint\":null,\"choices\":[{{\"index\":0,\"delta\":{{\"content\":\"{content}\"}},\"finish_reason\":{finish}}}],\"usage\":null}}"
    )
}

#[test]
fn test_sse_frame_preserves_multibyte_content_across_every_chunk_boundary() {
    let frame = format!("data: {}\r\n\r\n", chunk_json("\u{94dc}\u{7247}\u{1f642}", ""));

    for split_at in 0..=frame.len() {
        let mut buffer = Vec::new();
        buffer.extend_from_slice(&frame.as_bytes()[..split_at]);
        let mut frames = drain_sse_frames(&mut buffer);

        buffer.extend_from_slice(&frame.as_bytes()[split_at..]);
        frames.extend(drain_sse_frames(&mut buffer));

        assert_eq!(frames.len(), 1, "split_at={split_at}");
        let payload = sse_frame_payload(&frames[0]).expect("frame should parse");
        let parsed = payload_json(&payload);
        assert_eq!(
            parsed["choices"][0]["delta"]["content"].as_str(),
            Some("\u{94dc}\u{7247}\u{1f642}"),
            "split_at={split_at}"
        );
        assert!(buffer.is_empty(), "split_at={split_at}");
    }
}

#[test]
fn test_parse_sse_frame_ignores_done_and_parses_json() {
    assert!(sse_frame_payload(b"data: [DONE]").is_none());

    let frame = format!("data: {}\n", chunk_json("hi", "stop"));

    let payload = sse_frame_payload(frame.as_bytes()).expect("frame should parse");
    let parsed = payload_json(&payload);
    assert_eq!(parsed["choices"].as_array().unwrap().len(), 1);
    assert_eq!(parsed["choices"][0]["delta"]["content"].as_str(), Some("hi"));
    assert_eq!(parsed["choices"][0]["finish_reason"].as_str(), Some("stop"));
}

#[test]
fn normalize_crlf_rewrites_only_crlf_pairs() {
    let mut buffer = b"a\r\nb\rc\r\r\n".to_vec();
    normalize_crlf(&mut buffer);
    assert_eq!(buffer, b"a\nb\rc\r\n".to_vec());
}

#[test]
fn draining_twice_equals_draining_once() {
    let input = b"data: one\n\ndata: t\xc3\xa9\r\n\r\ndata: three\n\ndata: fo".to_vec();
    for split_at in 0..=input.len() {
        let mut whole = input.clone();
        let whole_events = drain_events(&mut whole);

        let mut buffer = input[..split_at].to_vec();
        let mut events = drain_events(&mut buffer);
        buffer.extend_from_slice(&input[split_at..]);
        events.extend(drain_events(&mut buffer));

        assert_eq!(events, whole_events, "split_at={split_at}");
        assert_eq!(buffer, whole, "split_at={split_at}");
    }
}

#[test]
fn incomplete_event_stays_in_the_buffer() {
    let mut buffer = b"data: x\n\ndata: partial".to_vec();
    assert_eq!(drain_events(&mut buffer), vec!["x"]);
    assert_eq!(buffer, b"data: partial".to_vec());
}

#[test]
fn final_drain_flushes_an_unterminated_event() {
    let mut buffer = b"data: last".to_vec();
    assert!(drain_events(&mut buffer).is_empty());
    assert_eq!(drain_final_events(&mut buffer), vec!["last"]);
    assert!(buffer.is_empty());
}

#[test]
fn non_data_lines_are_ignored_and_values_trimmed_at_the_start() {
    let text: Vec<char> = "event: x\nid: 3\ndata:   hello  \r\n:comment\ndata:\tworld".chars().collect();
    let payload: String = event_data_payload(&text).into_iter().collect();
    assert_eq!(payload, "hello  \nworld");
}

#[test]
fn invalid_utf8_is_replaced_leniently_but_refused_strictly() {
    let mut buffer = b"data: a\xffb\n\n".to_vec();
    assert_eq!(drain_events(&mut buffer), vec!["a\u{fffd}b"]);
    assert!(sse_frame_payload(b"data: a\xffb").is_none());
    assert!(sse_frame_payload(b"id: 1").is_none());
}

#[test]
fn whitespace_only_frames_are_dropped_by_the_frame_drain() {
    let mut buffer = b" \t\n\ndata: x\n\n".to_vec();
    let frames = drain_sse_frames(&mut buffer);
    assert_eq!(frames, vec![b"data: x".to_vec()]);
}

#[test]
fn feeding_chunks_yields_events_as_they_complete() {
    let mut buffer = Vec::new();
    assert!(feed_events(&mut buffer, b"data: he").is_empty());
    assert_eq!(feed_events(&mut buffer, b"llo\r\n\r\ndata: x"), vec!["hello".to_string()]);
    assert_eq!(buffer, b"data: x".to_vec());
}
