//! Events of the realtime service.
use pipecat::services::openai::realtime_events::{
    calculate_audio_duration_ms, default_item_id, event_id, joined_u128, make_event_id,
    make_item_id, parse_server_event, ConversationItem, ConversationItemCreateEvent,
    ConversationItemTruncateEvent, InputAudioBufferAppendEvent, InputAudioBufferClearEvent,
    InputAudioBufferCommitEvent, ItemContent, ResponseCancelEvent, ResponseCreateEvent,
    ServerEvent, SessionUpdateEvent, Usage,
};
use pipecat::services::openai::settings::{ResponseProperties, SessionProperties};
use serde_json::Value;

fn json(text: &str) -> Value {
    serde_json::from_str(text).unwrap()
}

#[test]
fn session_update_event_serialization() {
    let event = SessionUpdateEvent::new(SessionProperties {
        instructions: Some("Be helpful.".into()),
        ..SessionProperties::default()
    });
    let value = event.to_value();
    assert_eq!(value["type"], "session.update");
    assert!(value["event_id"].as_str().unwrap().starts_with("evt_"));
    assert_eq!(value["session"]["instructions"], "Be helpful.");
}

#[test]
fn input_audio_buffer_append_serialization() {
    let event = InputAudioBufferAppendEvent::new("AQID".into());
    let value = event.to_value();
    assert_eq!(value["type"], "input_audio_buffer.append");
    assert_eq!(value["audio"], "AQID");
}

#[test]
fn response_create_event_serialization() {
    let event = ResponseCreateEvent::new(Some(ResponseProperties {
        output_modalities: Some(vec!["audio".into()]),
        ..Default::default()
    }));
    let value = event.to_value();
    assert_eq!(value["type"], "response.create");
    assert_eq!(value["response"]["output_modalities"], json(r#"["audio"]"#));
}

#[test]
fn response_create_event_no_response() {
    let event = ResponseCreateEvent::new(None);
    let value = event.to_value();
    assert_eq!(value["type"], "response.create");
    assert!(value.get("response").is_none());
}

#[test]
fn conversation_item_create_event() {
    let item = ConversationItem {
        id: "item_123".into(),
        item_type: "function_call_output".into(),
        role: None,
        content: None,
        call_id: Some("call_abc".into()),
        name: None,
        arguments: None,
        output: Some(r#"{"result":"ok"}"#.into()),
        status: None,
        object: None,
    };
    let event = ConversationItemCreateEvent::new(item);
    let value = event.to_value();
    assert_eq!(value["type"], "conversation.item.create");
    assert_eq!(value["item"]["type"], "function_call_output");
    assert_eq!(value["item"]["call_id"], "call_abc");
    assert_eq!(value["item"]["output"], r#"{"result":"ok"}"#);
}

#[test]
fn conversation_item_truncate_event() {
    let event = ConversationItemTruncateEvent::new("item_123".into(), 0, 5000);
    let value = event.to_value();
    assert_eq!(value["type"], "conversation.item.truncate");
    assert_eq!(value["item_id"], "item_123");
    assert_eq!(value["content_index"], 0);
    assert_eq!(value["audio_end_ms"], 5000);
}

#[test]
fn parse_session_created() {
    let raw = json(r#"{ "type": "session.created", "event_id": "e1", "session": {} }"#);
    match parse_server_event(&raw) {
        ServerEvent::SessionCreated => {}
        other => panic!("expected SessionCreated, got {:?}", other),
    }
}

#[test]
fn parse_audio_delta() {
    let raw = json(r#"{
        "type": "response.output_audio.delta",
        "item_id": "item_1",
        "content_index": 0,
        "delta": "AQIDBA=="
    }"#);
    match parse_server_event(&raw) {
        ServerEvent::ResponseAudioDelta {
            item_id,
            content_index,
            delta,
        } => {
            assert_eq!(item_id, "item_1");
            assert_eq!(content_index, 0);
            assert_eq!(delta, "AQIDBA==");
        }
        other => panic!("expected ResponseAudioDelta, got {:?}", other),
    }
}

#[test]
fn parse_speech_started() {
    let raw = json(r#"{
        "type": "input_audio_buffer.speech_started",
        "audio_start_ms": 1000,
        "item_id": "item_2"
    }"#);
    match parse_server_event(&raw) {
        ServerEvent::SpeechStarted {
            audio_start_ms,
            item_id,
        } => {
            assert_eq!(audio_start_ms, 1000);
            assert_eq!(item_id, "item_2");
        }
        other => panic!("expected SpeechStarted, got {:?}", other),
    }
}

#[test]
fn parse_function_call_arguments_done() {
    let raw = json(r#"{
        "type": "response.function_call_arguments.done",
        "call_id": "call_abc",
        "arguments": "{\"city\":\"NYC\"}"
    }"#);
    match parse_server_event(&raw) {
        ServerEvent::FunctionCallArgumentsDone { call_id, arguments } => {
            assert_eq!(call_id, "call_abc");
            let args: serde_json::Value = serde_json::from_str(&arguments).unwrap();
            assert_eq!(args["city"], "NYC");
        }
        other => panic!("expected FunctionCallArgumentsDone, got {:?}", other),
    }
}

#[test]
fn parse_response_done_with_usage() {
    let raw = json(r#"{
        "type": "response.done",
        "response": {
            "id": "resp_1",
            "status": "completed",
            "output": [],
            "usage": {
                "total_tokens": 150,
                "input_tokens": 100,
                "output_tokens": 50,
                "input_token_details": { "cached_tokens": 20 }
            }
        }
    }"#);
    match parse_server_event(&raw) {
        ServerEvent::ResponseDone { response } => {
            assert_eq!(response.id, "resp_1");
            assert_eq!(response.status, "completed");
            let usage = response.usage.unwrap();
            assert_eq!(usage.total_tokens, 150);
            assert_eq!(usage.input_tokens, 100);
            assert_eq!(usage.output_tokens, 50);
            assert_eq!(
                usage
                    .input_token_details
                    .as_ref()
                    .and_then(|d| d.cached_tokens),
                Some(20)
            );
        }
        other => panic!("expected ResponseDone, got {:?}", other),
    }
}

#[test]
fn parse_error_event() {
    let raw = json(r#"{
        "type": "error",
        "error": {
            "type": "invalid_request_error",
            "code": "response_cancel_not_active",
            "message": "No active response to cancel."
        }
    }"#);
    match parse_server_event(&raw) {
        ServerEvent::Error { error } => {
            assert_eq!(error.code.as_deref(), Some("response_cancel_not_active"));
            assert_eq!(error.message, "No active response to cancel.");
        }
        other => panic!("expected Error, got {:?}", other),
    }
}

#[test]
fn parse_unknown_event() {
    let raw = json(r#"{ "type": "rate_limits.updated", "rate_limits": [] }"#);
    match parse_server_event(&raw) {
        ServerEvent::Unknown { event_type } => {
            assert_eq!(event_type, "rate_limits.updated");
        }
        other => panic!("expected Unknown, got {:?}", other),
    }
}

#[test]
fn parse_conversation_item_added_function_call() {
    let raw = json(r#"{
        "type": "conversation.item.added",
        "item": {
            "id": "item_func",
            "type": "function_call",
            "call_id": "call_123",
            "name": "get_weather",
            "status": "in_progress"
        }
    }"#);
    match parse_server_event(&raw) {
        ServerEvent::ConversationItemAdded { item } => {
            assert_eq!(item.id, "item_func");
            assert_eq!(item.item_type, "function_call");
            assert_eq!(item.call_id.as_deref(), Some("call_123"));
            assert_eq!(item.name.as_deref(), Some("get_weather"));
        }
        other => panic!("expected ConversationItemAdded, got {:?}", other),
    }
}

#[test]
fn audio_duration_calculation() {
    // 24000 Hz, 16-bit mono: 2 bytes per sample
    // 48000 bytes = 24000 samples = 1000ms
    let total_bytes: usize = 48000;
    let duration_ms = calculate_audio_duration_ms(total_bytes);
    assert_eq!(duration_ms, 1000);

    // 96000 bytes = 48000 samples = 2000ms
    assert_eq!(calculate_audio_duration_ms(96000), 2000);

    // 0 bytes = 0ms
    assert_eq!(calculate_audio_duration_ms(0), 0);
}

#[test]
fn event_ids() {
    assert_eq!(joined_u128(1, 2), (2u128 << 64) | 1);
    assert_eq!(event_id(0xabc), format!("evt_{:032x}", 0xabcu128));
    assert_ne!(event_id(1), event_id(1 << 127));
    let id = make_event_id();
    assert!(id.starts_with("evt_"));
    assert!(id.len() == 36 && id[4..].chars().all(|c| c.is_ascii_hexdigit()));
    assert_ne!(id, make_event_id());
    let item = make_item_id();
    assert!(item.len() == 32 && item.chars().all(|c| c.is_ascii_hexdigit()));
    assert_ne!(item, default_item_id());
}

#[test]
fn bare_events() {
    let values = [
        InputAudioBufferCommitEvent::new().to_value(),
        InputAudioBufferClearEvent::new().to_value(),
        ResponseCancelEvent::default().to_value(),
    ];
    let types = ["input_audio_buffer.commit", "input_audio_buffer.clear", "response.cancel"];
    for (value, event_type) in values.iter().zip(types) {
        assert_eq!(value["type"], event_type);
        assert_eq!(value.as_object().unwrap().len(), 2);
    }
}

#[test]
fn conversation_item_round_trip() {
    let item = ConversationItem {
        id: "item_1".into(),
        item_type: "message".into(),
        role: Some("user".into()),
        content: Some(vec![ItemContent {
            content_type: "input_text".into(),
            text: Some("hi".into()),
            audio: None,
            transcript: None,
            image_url: None,
            detail: None,
        }]),
        call_id: None,
        name: None,
        arguments: None,
        output: None,
        status: None,
        object: None,
    };
    let value = item.to_value();
    assert_eq!(
        value,
        json(
            r#"{"id": "item_1", "type": "message", "role": "user",
                "content": [{"type": "input_text", "text": "hi"}]}"#
        )
    );
    let back = ConversationItem::from_value(&value).unwrap();
    assert_eq!(back.to_value(), value);
    assert_eq!(item.copy().to_value(), value);
}

#[test]
fn item_without_id_gets_one() {
    let item = ConversationItem::from_value(&json(r#"{"type": "message"}"#)).unwrap();
    assert_eq!(item.id.len(), 32);
    assert!(ConversationItem::from_value(&json(r#"{"id": "a"}"#)).is_none());
    assert!(ConversationItem::from_value(&json(r#"{"type": 1}"#)).is_none());
    assert!(ConversationItem::from_value(&json(r#""message""#)).is_none());
    let item = ConversationItem::from_value_or(&json(r#"{"type": "x"}"#), "mine".into()).unwrap();
    assert_eq!(item.id, "mine");
}

#[test]
fn parse_every_event() {
    let item = r#""item": {"id": "i", "type": "message"}"#;
    let cases = [
        (r#"{"type": "session.updated"}"#.to_string(), "SessionUpdated"),
        (r#"{"type": "conversation.item.input_audio_transcription.delta", "item_id": "i", "delta": "d"}"#.into(), "TranscriptionDelta"),
        (r#"{"type": "conversation.item.input_audio_transcription.completed", "item_id": "i", "transcript": "t"}"#.into(), "TranscriptionCompleted"),
        (format!(r#"{{"type": "conversation.item.added", {item}}}"#), "ConversationItemAdded"),
        (r#"{"type": "response.output_audio.done", "item_id": "i"}"#.into(), "ResponseAudioDone"),
        (r#"{"type": "response.output_audio_transcript.delta", "delta": "d"}"#.into(), "ResponseAudioTranscriptDelta"),
        (r#"{"type": "response.output_text.delta", "delta": "d"}"#.into(), "ResponseTextDelta"),
        (r#"{"type": "input_audio_buffer.speech_stopped", "audio_end_ms": 7, "item_id": "i"}"#.into(), "SpeechStopped"),
    ];
    for (text, name) in cases {
        let shown = format!("{:?}", parse_server_event(&json(&text)));
        assert!(shown.starts_with(name), "{text} gave {shown}");
    }
    assert!(matches!(
        parse_server_event(&json("{}")),
        ServerEvent::Unknown { event_type } if event_type == "unknown"
    ));
}

#[test]
fn malformed_parts_are_replaced() {
    match parse_server_event(&json(r#"{"type": "conversation.item.added", "item": {"id": "i"}}"#)) {
        ServerEvent::ConversationItemAdded { item } => {
            assert_eq!(item.to_value(), json(r#"{"id": "", "type": ""}"#));
        }
        other => panic!("expected ConversationItemAdded, got {:?}", other),
    }
    match parse_server_event(&json(r#"{"type": "error", "error": 3}"#)) {
        ServerEvent::Error { error } => {
            assert_eq!(error.error_type, "");
            assert_eq!(error.code, None);
            assert_eq!(error.message, "unknown error");
        }
        other => panic!("expected Error, got {:?}", other),
    }
    match parse_server_event(&json(r#"{"type": "response.done"}"#)) {
        ServerEvent::ResponseDone { response } => {
            assert_eq!(response.id, "");
            assert_eq!(response.status, "unknown");
            assert!(response.output.is_empty() && response.usage.is_none());
        }
        other => panic!("expected ResponseDone, got {:?}", other),
    }
}

#[test]
fn large_indices_wrap() {
    let value = json(r#"{"type": "response.output_audio.done", "content_index": 4294967298}"#);
    assert!(matches!(
        parse_server_event(&value),
        ServerEvent::ResponseAudioDone { item_id, content_index: 2 } if item_id.is_empty()
    ));
}

#[test]
fn usage_tokens_must_fit() {
    let usage = json(r#"{"total_tokens": 1, "input_tokens": 2, "output_tokens": 4294967295}"#);
    assert_eq!(Usage::from_value(&usage).unwrap().output_tokens, u32::MAX);
    let usage = json(r#"{"total_tokens": 1, "input_tokens": 2, "output_tokens": 4294967296}"#);
    assert!(Usage::from_value(&usage).is_none());
}
