use pocket_agent::api::client::{
    base_url_of, chat_request_plan, sse_event, ChoiceDelta, SseErrorCount, SseItem, SseJson, StreamEvent,
    ToolCallDelta,
};
use pocket_agent::audio_queue::{audio_queue_reserve, is_queue_full, AudioQueue};
use pocket_agent::api::server::{
    bridge_ack_response, bridge_send_outcome, default_show_thinking, is_authorized, push_outcome,
    validate_bridge_request, BridgeSendRequest, Emotion, PushRequest,
};

fn bridge_request(source: &str, session_id: &str, text: &str, context: Option<&str>) -> BridgeSendRequest {
    BridgeSendRequest {
        source: source.into(),
        session_id: session_id.into(),
        text: text.into(),
        user_language: None,
        context: context.map(|c| c.to_string()),
        show_thinking: true,
    }
}

#[test]
fn bridge_request_validation_rejects_blank_fields() {
    let request = BridgeSendRequest {
        source: "   ".into(),
        session_id: "game-001".into(),
        text: "move now".into(),
        user_language: None,
        context: None,
        show_thinking: true,
    };
    assert_eq!(validate_bridge_request(&request), Err("source is empty".into()));
}

#[test]
fn bridge_ack_uses_accepted_wording_and_session_namespace() {
    let ack = bridge_ack_response("chess-app", "game-001");
    assert!(ack.ok);
    assert!(ack.accepted);
    assert_eq!(ack.bridge_session, "bridge:chess-app:game-001");
    assert_eq!(ack.message, "accepted for Hermes dispatch");
}

#[test]
fn bridge_validation_names_each_missing_field() {
    assert_eq!(validate_bridge_request(&bridge_request("app", " \t", "hi", None)), Err("session_id is empty".into()));
    assert_eq!(validate_bridge_request(&bridge_request("app", "s1", "\n", None)), Err("text is empty".into()));
    assert_eq!(validate_bridge_request(&bridge_request("app", "s1", "hi", None)), Ok(()));
}

#[test]
fn bridge_send_trims_fields_and_drops_blank_context() {
    let out = bridge_send_outcome(&bridge_request(" chess-app ", " game-001 ", "  e4  ", Some("   "))).ok().unwrap();
    assert_eq!(out.source, "chess-app");
    assert_eq!(out.session_id, "game-001");
    assert_eq!(out.text, "e4");
    assert!(out.context.is_none());
    assert!(out.show_thinking);
    assert_eq!(out.ack.bridge_session, "bridge:chess-app:game-001");
    let with_context = bridge_send_outcome(&bridge_request("a", "b", "c", Some(" board: empty "))).ok().unwrap();
    assert_eq!(with_context.context.as_deref(), Some("board: empty"));
}

#[test]
fn bridge_send_reports_validation_error() {
    let err = bridge_send_outcome(&bridge_request("", "b", "c", None)).err().unwrap();
    assert!(!err.ok);
    assert_eq!(err.error, "source is empty");
}

#[test]
fn show_thinking_defaults_on() {
    assert!(default_show_thinking());
}

#[test]
fn emotion_names_are_lowercase() {
    assert_eq!(Emotion::Friendly.as_str(), "friendly");
    assert_eq!(Emotion::Whisper.as_str(), "whisper");
    assert_eq!(Emotion::Angry.as_str(), "angry");
}

#[test]
fn authorization_requires_exact_bearer_token() {
    assert!(is_authorized("", None));
    assert!(is_authorized("", Some("anything")));
    assert!(is_authorized("k123", Some("Bearer k123")));
    assert!(!is_authorized("k123", Some("bearer k123")));
    assert!(!is_authorized("k123", Some("Bearer k1234")));
    assert!(!is_authorized("k123", Some("k123")));
    assert!(!is_authorized("k123", None));
}

#[test]
fn push_rejects_blank_text() {
    let body = PushRequest { text: "   ".into(), emotion: None, voice: None };
    let out = push_outcome(&body, false);
    assert_eq!(out.status, 400);
    assert!(!out.response.ok);
    assert_eq!(out.response.message, "text is empty");
    assert!(out.payload.is_none());
}

#[test]
fn push_rejects_when_queue_full() {
    let body = PushRequest { text: "hello".into(), emotion: None, voice: None };
    let out = push_outcome(&body, true);
    assert_eq!(out.status, 429);
    assert_eq!(out.response.message, "audio queue full");
    assert!(out.payload.is_none());
}

#[test]
fn push_hands_trimmed_text_with_tone_and_voice() {
    let body = PushRequest {
        text: "  hello there \n".into(),
        emotion: Some(Emotion::Cheerful),
        voice: Some("en-US-AriaNeural".into()),
    };
    let out = push_outcome(&body, false);
    assert_eq!(out.status, 200);
    assert!(out.response.ok);
    assert_eq!(out.response.message, "pushed");
    let p = out.payload.unwrap();
    assert_eq!(p.text, "hello there");
    assert_eq!(p.emotion, "cheerful");
    assert_eq!(p.voice.as_deref(), Some("en-US-AriaNeural"));
    let plain = push_outcome(&PushRequest { text: "hi".into(), emotion: None, voice: None }, false);
    assert_eq!(plain.payload.unwrap().emotion, "friendly");
}

#[test]
fn base_url_loses_trailing_slashes() {
    assert_eq!(base_url_of("http://localhost:8642///"), "http://localhost:8642");
    assert_eq!(base_url_of("http://h/api"), "http://h/api");
    assert_eq!(base_url_of("///"), "");
}

#[test]
fn chat_request_with_agent_and_session() {
    let plan = chat_request_plan(
        "http://h",
        Some("secret"),
        Some("main"),
        "hi",
        Some("speak plainly"),
        Some("yesterday"),
        Some("pa-2024-01-01"),
    );
    assert_eq!(plan.url, "http://h/v1/chat/completions");
    assert_eq!(plan.model, "openclaw/main");
    let msgs: Vec<(&str, &str)> = plan.messages.iter().map(|m| (m.role.as_str(), m.content.as_str())).collect();
    assert_eq!(msgs, vec![("system", "yesterday"), ("system", "speak plainly"), ("user", "hi")]);
    let headers: Vec<(&str, &str)> = plan.headers.iter().map(|h| (h.name.as_str(), h.value.as_str())).collect();
    assert_eq!(
        headers,
        vec![
            ("Authorization", "Bearer secret"),
            ("X-Hermes-Session-Id", "pa-2024-01-01"),
            ("x-openclaw-session-key", "agent:main:pa-2024-01-01"),
        ]
    );
}

#[test]
fn chat_request_defaults() {
    let plan = chat_request_plan("http://h", None, None, "hi", Some(""), None, None);
    assert_eq!(plan.model, "default");
    assert_eq!(plan.messages.len(), 1);
    assert_eq!(plan.messages[0].role, "user");
    assert!(plan.headers.is_empty());
}

fn data_event(delta: ChoiceDelta) -> SseItem {
    SseItem::Event {
        event: "message".into(),
        data: "{}".into(),
        json: Some(SseJson { status: None, tool_call_id: None, tool: None, delta: Some(delta) }),
    }
}

fn empty_delta() -> ChoiceDelta {
    ChoiceDelta { reasoning: None, reasoning_content: None, tool_calls: None, content: None }
}

#[test]
fn sse_content_and_reasoning() {
    let mut c = SseErrorCount { count: 0 };
    match sse_event(&mut c, &data_event(ChoiceDelta { content: Some("Hi".into()), ..empty_delta() })) {
        Some(Ok(StreamEvent::Content(t))) => assert_eq!(t, "Hi"),
        _ => panic!("expected content"),
    }
    let r = sse_event(
        &mut c,
        &data_event(ChoiceDelta {
            reasoning: None,
            reasoning_content: Some("thinking".into()),
            content: Some("x".into()),
            ..empty_delta()
        }),
    );
    match r {
        Some(Ok(StreamEvent::Reasoning(t))) => assert_eq!(t, "thinking"),
        _ => panic!("expected reasoning"),
    }
    // an empty `reasoning` hides `reasoning_content` and falls through to the content
    let r = sse_event(
        &mut c,
        &data_event(ChoiceDelta {
            reasoning: Some(String::new()),
            reasoning_content: Some("hidden".into()),
            content: Some("answer".into()),
            ..empty_delta()
        }),
    );
    match r {
        Some(Ok(StreamEvent::Content(t))) => assert_eq!(t, "answer"),
        _ => panic!("expected content"),
    }
}

#[test]
fn sse_tool_calls() {
    let mut c = SseErrorCount { count: 0 };
    let calls = vec![
        ToolCallDelta { id: Some(String::new()), name: Some("skip".into()) },
        ToolCallDelta { id: Some("call_1".into()), name: Some("weather".into()) },
    ];
    match sse_event(&mut c, &data_event(ChoiceDelta { tool_calls: Some(calls), ..empty_delta() })) {
        Some(Ok(StreamEvent::ToolCallStart { id, name })) => {
            assert_eq!(id, "call_1");
            assert_eq!(name, "weather");
        },
        _ => panic!("expected a tool call"),
    }
    let progress = SseItem::Event {
        event: "hermes.tool.progress".into(),
        data: "{}".into(),
        json: Some(SseJson {
            status: Some("running".into()),
            tool_call_id: Some("t9".into()),
            tool: Some("search".into()),
            delta: None,
        }),
    };
    match sse_event(&mut c, &progress) {
        Some(Ok(StreamEvent::ToolCallStart { id, name })) => {
            assert_eq!(id, "t9");
            assert_eq!(name, "search");
        },
        _ => panic!("expected a tool call"),
    }
    let completed = SseItem::Event {
        event: "hermes.tool.progress".into(),
        data: "{}".into(),
        json: Some(SseJson {
            status: Some("completed".into()),
            tool_call_id: Some("t9".into()),
            tool: Some("search".into()),
            delta: None,
        }),
    };
    assert!(sse_event(&mut c, &completed).is_none());
}

#[test]
fn sse_done_and_errors() {
    let mut c = SseErrorCount { count: 0 };
    let done = SseItem::Event { event: "message".into(), data: "[DONE]".into(), json: None };
    assert!(sse_event(&mut c, &done).is_none());
    for _ in 0..4 {
        assert!(sse_event(&mut c, &SseItem::Error).is_none());
    }
    match sse_event(&mut c, &SseItem::Error) {
        Some(Err(e)) => assert_eq!(e, "SSE stream unstable, auto-disconnected (5 errors)"),
        _ => panic!("expected the stream to give up"),
    }
    let mut d = SseErrorCount { count: 3 };
    let garbage = SseItem::Event { event: "message".into(), data: "not json".into(), json: None };
    assert!(sse_event(&mut d, &garbage).is_none());
    assert_eq!(d.count, 0);
}

#[test]
fn fourth_concurrent_push_is_refused() {
    let mut q = AudioQueue::new();
    let body = PushRequest { text: "hello".into(), emotion: None, voice: None };
    for _ in 0..3 {
        assert_eq!(push_outcome(&body, is_queue_full(&q)).status, 200);
        assert!(audio_queue_reserve(&mut q).reserved);
    }
    assert_eq!(push_outcome(&body, is_queue_full(&q)).status, 429);
}
