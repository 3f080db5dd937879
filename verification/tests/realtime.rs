//! The realtime service.
use bytes::Bytes;
use pipecat::frames::{
    AudioRawFrame, Direction, Frame, FrameEnvelope, ImageRawFrame, MetricsData, StartFrame,
    TextFrame,
};
use pipecat::collections::ValueMap;
use pipecat::services::openai::llm::CallOutcome;
use pipecat::services::openai::media::{data_uri, encode_jpeg};
use pipecat::services::openai::realtime::{
    build_session_properties, context_message_to_conversation_item, extract_host,
    merged_properties, message_to_item, result_item, turn_detection_disabled, ClientEvent,
    RealtimeAction, RealtimeCommit,
};
use pipecat::services::openai::realtime_events::calculate_audio_duration_ms;
use pipecat::services::openai::realtime_receive::ServerMessage;
use pipecat::services::openai::realtime_service::OpenAIRealtimeService;
use pipecat::services::openai::realtime_state::{CurrentAudioResponse, SharedRealtimeState};
use pipecat::services::openai::settings::{
    AudioConfiguration, AudioInput, OpenAIRealtimeSettings, SessionProperties,
};
use pipecat::services::settings::LLMSettings;
use serde_json::Value;

const SEC: u64 = 1_000_000_000;

fn json(text: &str) -> Value {
    serde_json::from_str(text).unwrap()
}

fn envelope(frame: Frame) -> FrameEnvelope {
    FrameEnvelope { id: 1, pts: None, transport_destination: None, frame }
}

fn service(settings: OpenAIRealtimeSettings) -> (OpenAIRealtimeService, SharedRealtimeState) {
    let svc = OpenAIRealtimeService::new("test-key".into(), settings);
    let shared = svc.new_shared_state();
    (svc, shared)
}

/// Processes one frame, carrying out what changes state.
fn run(
    svc: &mut OpenAIRealtimeService,
    shared: &mut SharedRealtimeState,
    frame: Frame,
    now: u64,
    now_ms: u64,
) -> Vec<RealtimeAction> {
    let mut rest = Vec::new();
    let actions = svc
        .process_frame(shared, &envelope(frame), Direction::Downstream, now, now_ms)
        .unwrap();
    for action in actions {
        match action {
            RealtimeAction::Commit(c) => svc.commit(shared, c, now),
            other => rest.push(other),
        }
    }
    rest
}

fn forwards(actions: &[RealtimeAction]) -> usize {
    actions
        .iter()
        .filter(|a| matches!(a, RealtimeAction::Forward(Direction::Downstream)))
        .count()
}

fn disabled_detection() -> OpenAIRealtimeSettings {
    OpenAIRealtimeSettings {
        base: LLMSettings::default(),
        session_properties: SessionProperties {
            audio: Some(AudioConfiguration {
                input: Some(AudioInput { turn_detection: Some(None), ..AudioInput::default() }),
                ..AudioConfiguration::default()
            }),
            ..SessionProperties::default()
        },
    }
}

fn rgb_image() -> ImageRawFrame {
    ImageRawFrame {
        image: Bytes::from(vec![128u8; 3 * 3 * 2]),
        size: (3, 2),
        format: Some("RGB".into()),
    }
}

#[test]
fn context_message_to_item_user() {
    let msg = json(r#"{"role": "user", "content": "Hello"}"#);
    let item = context_message_to_conversation_item(&msg);
    assert_eq!(item.item_type, "message");
    assert_eq!(item.role.as_deref(), Some("user"));
    let content = item.content.unwrap();
    assert_eq!(content[0].content_type, "input_text");
    assert_eq!(content[0].text.as_deref(), Some("Hello"));
}

#[test]
fn context_message_to_item_assistant() {
    let msg = json(r#"{"role": "assistant", "content": "Hi there!"}"#);
    let item = context_message_to_conversation_item(&msg);
    assert_eq!(item.role.as_deref(), Some("assistant"));
    let content = item.content.unwrap();
    assert_eq!(content[0].content_type, "text");
}

#[test]
fn extract_host_basic() {
    assert_eq!(
        extract_host("wss://api.openai.com/v1/realtime").as_deref(),
        Some("api.openai.com")
    );
    assert_eq!(
        extract_host("ws://localhost:8080/ws").as_deref(),
        Some("localhost:8080")
    );
}

#[test]
fn extract_host_without_path() {
    assert_eq!(extract_host("wss://host").as_deref(), Some("host"));
    assert_eq!(extract_host("https://host/x"), None);
}

#[test]
fn truncation_math() {
    // 48000 bytes at 24kHz 16-bit mono = 1000ms
    assert_eq!(calculate_audio_duration_ms(48000), 1000);
    let current = CurrentAudioResponse {
        item_id: "i".into(),
        content_index: 0,
        start_time_ms: 10_000,
        total_size: 48000,
    };
    // If elapsed is 500ms and audio is 1000ms, truncate at 500
    assert_eq!(current.truncate_ms(10_500), 500);
    // If elapsed is 2000ms and audio is 1000ms, truncate at 1000
    assert_eq!(current.truncate_ms(12_000), 1000);
    // A clock that was set back counts as no time.
    assert_eq!(current.truncate_ms(9_000), 0);
}

#[test]
fn turn_detection_disabled_check() {
    assert!(turn_detection_disabled(&disabled_detection().session_properties));
}

#[test]
fn turn_detection_not_disabled_when_absent() {
    let settings = OpenAIRealtimeSettings::default();
    assert!(!turn_detection_disabled(&settings.session_properties));
}

#[test]
fn process_frame_forwards_text() {
    let (mut svc, mut shared) = service(OpenAIRealtimeSettings::default());
    let frame = Frame::Text(TextFrame {
        text: "hello".into(),
        skip_tts: None,
        includes_inter_frame_spaces: false,
        append_to_context: true,
    });
    let actions = run(&mut svc, &mut shared, frame, 0, 0);
    assert_eq!(actions.len(), 1);
    assert_eq!(forwards(&actions), 1);
}

#[test]
fn process_frame_consumes_input_audio() {
    let (mut svc, mut shared) = service(OpenAIRealtimeSettings::default());
    let frame = Frame::InputAudioRaw(AudioRawFrame {
        audio: Bytes::from(vec![0u8; 100]),
        sample_rate: 24000,
        num_channels: 1,
    });
    let actions = run(&mut svc, &mut shared, frame, 0, 0);
    assert!(actions.is_empty());
}

#[test]
fn process_frame_forwards_interruption() {
    let (mut svc, mut shared) = service(OpenAIRealtimeSettings::default());
    let actions = run(&mut svc, &mut shared, Frame::Interruption, 0, 0);
    assert!(actions.iter().any(|a| matches!(
        a,
        RealtimeAction::SendDownstream(Frame::LLMFullResponseEnd { .. })
    )));
    assert!(actions
        .iter()
        .any(|a| matches!(a, RealtimeAction::SendDownstream(Frame::TTSStopped { .. }))));
    assert_eq!(forwards(&actions), 1);
}

#[test]
fn settings_update_applies_model() {
    let (mut svc, mut shared) = service(OpenAIRealtimeSettings::new(LLMSettings {
        model: Some("gpt-4o-realtime-preview".into()),
        ..LLMSettings::default()
    }));
    let mut delta = ValueMap::new();
    delta.insert("model".into(), json(r#""gpt-4o-mini-realtime""#));
    run(&mut svc, &mut shared, Frame::LLMUpdateSettings(delta), 0, 0);
    assert_eq!(svc.settings().base.model.as_deref(), Some("gpt-4o-mini-realtime"));
    assert_eq!(svc.base().model().as_deref(), Some("gpt-4o-mini-realtime"));
}

#[test]
fn process_frame_consumes_input_image() {
    let (mut svc, mut shared) = service(OpenAIRealtimeSettings::default());
    let frame = Frame::InputImageRaw(ImageRawFrame {
        image: Bytes::from(vec![255u8; 3 * 3 * 2]),
        size: (3, 2),
        format: Some("RGB".into()),
    });
    let actions = run(&mut svc, &mut shared, frame, 0, 0);
    assert!(actions.is_empty());
}

#[test]
fn send_user_video_rate_limits() {
    let (mut svc, mut shared) = service(OpenAIRealtimeSettings::default());
    assert!(svc.last_video_sent().is_none());
    run(&mut svc, &mut shared, Frame::InputImageRaw(rgb_image()), 5, 0);
    assert_eq!(svc.last_video_sent(), Some(5));
    run(&mut svc, &mut shared, Frame::InputImageRaw(rgb_image()), 6, 0);
    assert_eq!(svc.last_video_sent(), Some(5));
    run(&mut svc, &mut shared, Frame::InputImageRaw(rgb_image()), SEC + 5, 0);
    assert_eq!(svc.last_video_sent(), Some(SEC + 5));
}

#[test]
fn jpeg_encode_small_rgb_image() {
    // 3x2 RGB image: red, green, blue; yellow, cyan, magenta.
    let pixels = vec![
        255, 0, 0, 0, 255, 0, 0, 0, 255, 255, 255, 0, 0, 255, 255, 255, 0, 255,
    ];
    let jpeg_buf = encode_jpeg(&ImageRawFrame {
        image: Bytes::from(pixels),
        size: (3, 2),
        format: None,
    })
    .unwrap();
    assert!(jpeg_buf.len() > 2);
    assert_eq!(jpeg_buf[0], 0xFF);
    assert_eq!(jpeg_buf[1], 0xD8);
}

#[test]
fn jpeg_encode_rgba_image() {
    let pixels = vec![
        255, 0, 0, 255, 0, 255, 0, 255, 0, 0, 255, 128, 255, 255, 0, 255, 0, 255, 255, 255, 255, 0,
        255, 0,
    ];
    let jpeg_buf = encode_jpeg(&ImageRawFrame {
        image: Bytes::from(pixels),
        size: (3, 2),
        format: Some("RGBA".into()),
    })
    .unwrap();
    assert!(jpeg_buf.len() > 2);
    assert_eq!(jpeg_buf[0], 0xFF);
    assert_eq!(jpeg_buf[1], 0xD8);
}

#[test]
fn short_pixel_buffers_are_refused() {
    for (format, message) in [
        (Some("RGBA".to_string()), "invalid RGBA image dimensions"),
        (None, "invalid RGB image dimensions"),
    ] {
        let frame = ImageRawFrame { image: Bytes::from(vec![1u8; 5]), size: (3, 2), format };
        assert_eq!(encode_jpeg(&frame).unwrap_err(), message);
    }
}

#[test]
fn images_beyond_their_pixels_are_not_processed() {
    let (mut svc, shared) = service(OpenAIRealtimeSettings::default());
    let image = |format: Option<String>| {
        envelope(Frame::InputImageRaw(ImageRawFrame {
            image: Bytes::from(vec![1u8; 25]),
            size: (3, 2),
            format,
        }))
    };
    assert!(!svc.can_process(&shared, &image(None), 0));
    assert!(svc.can_process(&shared, &image(Some("RGBA".into())), 0));
    assert!(svc.can_process(&shared, &envelope(Frame::InputImageRaw(rgb_image())), 0));
    assert!(svc.can_process(&shared, &envelope(Frame::End), 0));
    let mut shared = shared;
    run(&mut svc, &mut shared, Frame::InputImageRaw(rgb_image()), 5, 0);
    assert!(svc.can_process(&shared, &image(None), 6));
    let svc = svc.with_video_paused(true);
    assert!(svc.can_process(&shared, &image(None), 9 * SEC));
}

#[test]
fn data_uri_is_base64() {
    assert_eq!(data_uri(&vec![1, 2, 3, 4]), "data:image/jpeg;base64,AQIDBA==");
}

fn sent(actions: Vec<RealtimeAction>) -> Vec<Value> {
    actions
        .into_iter()
        .filter_map(|a| match a {
            RealtimeAction::Send(event) => Some(json(&event.into_text())),
            _ => None,
        })
        .collect()
}

fn types(values: &[Value]) -> Vec<&str> {
    values.iter().map(|v| v["type"].as_str().unwrap()).collect()
}

#[test]
fn audio_is_sent_once_connected() {
    let (mut svc, mut shared) = service(OpenAIRealtimeSettings::default());
    svc.connected();
    let frame = || {
        Frame::InputAudioRaw(AudioRawFrame {
            audio: Bytes::from(vec![1u8, 2, 3]),
            sample_rate: 24000,
            num_channels: 1,
        })
    };
    let values = sent(run(&mut svc, &mut shared, frame(), 0, 0));
    assert_eq!(types(&values), vec!["input_audio_buffer.append"]);
    assert_eq!(values[0]["audio"], "AQID");
    shared.audio_input_paused = true;
    assert!(run(&mut svc, &mut shared, frame(), 0, 0).is_empty());
}

#[test]
fn connection_addresses() {
    let (svc, _) = service(OpenAIRealtimeSettings::default());
    assert_eq!(
        svc.connect_url(),
        "wss://api.openai.com/v1/realtime?model=gpt-4o-realtime-preview"
    );
    assert_eq!(svc.connect_host(), "api.openai.com");
    assert_eq!(svc.authorization(), "Bearer test-key");
    let svc = svc.with_base_url("ws://localhost:1/ws".into());
    assert_eq!(svc.connect_host(), "localhost:1");
    let svc = svc.with_audio_paused(true);
    assert!(svc.new_shared_state().audio_input_paused);
}

#[test]
fn start_connects_and_end_disconnects() {
    let (mut svc, mut shared) = service(OpenAIRealtimeSettings::default());
    let start = Frame::Start(StartFrame {
        audio_in_sample_rate: 16000,
        audio_out_sample_rate: 24000,
        allow_interruptions: true,
        enable_metrics: true,
        enable_usage_metrics: false,
        report_only_initial_ttfb: false,
    });
    let actions = run(&mut svc, &mut shared, start, 0, 0);
    assert!(matches!(actions[0], RealtimeAction::Forward(_)));
    assert!(matches!(&actions[1], RealtimeAction::Connect { url } if *url == svc.connect_url()));
    assert!(svc.base().metrics_enabled());
    svc.connected();
    shared.completed_tool_calls.insert("c".into());
    let actions = run(&mut svc, &mut shared, Frame::End, 0, 0);
    assert!(actions.iter().any(|a| matches!(a, RealtimeAction::Disconnect)));
    assert!(!shared.completed_tool_calls.contains("c"));
}

#[test]
fn first_context_sets_the_conversation_up() {
    let (mut svc, mut shared) = service(OpenAIRealtimeSettings::default());
    svc.connected();
    shared.api_session_ready = true;
    let context = json(
        r#"{"system_instruction": "be kind", "tools": [],
            "messages": [{"role": "user", "content": "hi"}]}"#,
    );
    let values = sent(run(&mut svc, &mut shared, Frame::LLMContext(context), 0, 0));
    assert_eq!(
        types(&values),
        vec!["conversation.item.create", "session.update", "response.create"]
    );
    assert_eq!(values[1]["session"], json(r#"{"instructions": "be kind"}"#));
    assert_eq!(
        values[2]["response"],
        json(r#"{"output_modalities": ["text", "audio"]}"#)
    );
    assert!(shared.messages_added_manually.contains(values[0]["item"]["id"].as_str().unwrap()));
}

#[test]
fn results_are_sent_once() {
    let (mut svc, mut shared) = service(OpenAIRealtimeSettings::default());
    svc.connected();
    shared.api_session_ready = true;
    let first = json(r#"{"messages": [{"tool_call_id": "old", "content": "1"}]}"#);
    run(&mut svc, &mut shared, Frame::LLMContext(first), 0, 0);
    let second = r#"{"messages": [
        {"tool_call_id": "old", "content": "1"},
        {"tool_call_id": "new", "content": {"a": 1}}
    ]}"#;
    let values = sent(run(&mut svc, &mut shared, Frame::LLMContext(json(second)), 0, 0));
    assert_eq!(types(&values), vec!["conversation.item.create", "response.create"]);
    assert_eq!(values[0]["item"]["call_id"], "new");
    assert_eq!(values[0]["item"]["output"], r#"{"a":1}"#);
    let values = sent(run(&mut svc, &mut shared, Frame::LLMContext(json(second)), 0, 0));
    assert!(values.is_empty());
}

#[test]
fn interruption_truncates_once() {
    let (mut svc, mut shared) = service(disabled_detection());
    svc.connected();
    shared.current_audio_response = Some(CurrentAudioResponse {
        item_id: "item".into(),
        content_index: 3,
        start_time_ms: 1000,
        total_size: 96000,
    });
    let values = sent(run(&mut svc, &mut shared, Frame::Interruption, 0, 1500));
    assert_eq!(
        types(&values),
        vec!["input_audio_buffer.clear", "response.cancel", "conversation.item.truncate"]
    );
    assert_eq!(values[2]["item_id"], "item");
    assert_eq!(values[2]["content_index"], 3);
    assert_eq!(values[2]["audio_end_ms"], 500);
    let values = sent(run(&mut svc, &mut shared, Frame::Interruption, 0, 1600));
    assert_eq!(types(&values), vec!["input_audio_buffer.clear", "response.cancel"]);
    let values = sent(run(&mut svc, &mut shared, Frame::UserStoppedSpeaking, 0, 0));
    assert_eq!(types(&values), vec!["input_audio_buffer.commit"]);
}

#[test]
fn new_session_properties_are_sent() {
    let (mut svc, mut shared) = service(OpenAIRealtimeSettings::default());
    svc.connected();
    let mut delta = ValueMap::new();
    delta.insert("session_properties".into(), json(r#"{"instructions": "x"}"#));
    let values = sent(run(&mut svc, &mut shared, Frame::LLMUpdateSettings(delta), 0, 0));
    assert_eq!(values[0]["session"], json(r#"{"instructions": "x"}"#));
    let mut delta = ValueMap::new();
    delta.insert("session_properties".into(), json("7"));
    assert!(sent(run(&mut svc, &mut shared, Frame::LLMUpdateSettings(delta), 0, 0)).is_empty());
    let values = sent(run(&mut svc, &mut shared, Frame::LLMSetTools(json("[]")), 0, 0));
    assert_eq!(types(&values), vec!["session.update"]);
}

#[test]
fn video_is_sent_as_an_image_item() {
    let (svc, mut shared) = service(OpenAIRealtimeSettings::default());
    let mut svc = svc.with_video_frame_detail("low".into());
    svc.connected();
    let values = sent(run(&mut svc, &mut shared, Frame::InputImageRaw(rgb_image()), 0, 0));
    let part = &values[0]["item"]["content"][0];
    assert_eq!(part["type"], "input_image");
    assert_eq!(part["detail"], "low");
    assert!(part["image_url"].as_str().unwrap().starts_with("data:image/jpeg;base64,/9j/"));
    let mut svc = svc.with_video_paused(true);
    let actions = run(&mut svc, &mut shared, Frame::InputImageRaw(rgb_image()), 9 * SEC, 0);
    assert!(actions.is_empty());
}

#[test]
fn instructions_come_from_the_context_first() {
    let settings = OpenAIRealtimeSettings::new(LLMSettings {
        system_instruction: Some("base".into()),
        ..LLMSettings::default()
    });
    assert_eq!(build_session_properties(&settings).instructions.as_deref(), Some("base"));
    let context = Some(json(r#"{"system_instruction": "ctx", "tools": [1]}"#));
    let props = merged_properties(&settings, &context);
    assert_eq!(props.instructions.as_deref(), Some("ctx"));
    assert_eq!(props.tools, Some(json("[1]")));
    assert_eq!(merged_properties(&settings, &None).instructions.as_deref(), Some("base"));
}

#[test]
fn items_from_messages() {
    let item = message_to_item(&json(r#"{"content": [1]}"#), "id".into());
    assert_eq!(item.id, "id");
    assert_eq!(item.role.as_deref(), Some("user"));
    let item = result_item("id".into(), "c", &json(r#""plain""#));
    assert_eq!(item.output.as_deref(), Some("plain"));
    let item = result_item("id".into(), "c", &json("[true]"));
    assert_eq!(item.output.as_deref(), Some("[true]"));
}

// -- Receiving --

fn receive(shared: &mut SharedRealtimeState, text: &str, now: u64, now_ms: u64) -> Vec<RealtimeAction> {
    let settings = OpenAIRealtimeSettings::default();
    shared.receive(&settings, ServerMessage::Text(text.into()), now, now_ms)
}

#[test]
fn waiting_response_is_asked_for_once() {
    let (mut svc, mut shared) = service(OpenAIRealtimeSettings::default());
    svc.connected();
    run(&mut svc, &mut shared, Frame::LLMContext(json("{}")), 0, 0);
    assert!(shared.run_llm_when_api_session_ready);
    let text = r#"{"type": "session.updated"}"#;
    let values = sent(receive(&mut shared, text, 0, 0));
    assert_eq!(types(&values), vec!["response.create"]);
    assert!(values[0].get("response").is_none());
    assert!(receive(&mut shared, text, 0, 0).is_empty());
    assert!(shared.api_session_ready);
}

#[test]
fn audio_response_is_tracked() {
    let mut shared = SharedRealtimeState::new(false);
    let text = r#"{"type": "response.output_audio.delta", "item_id": "i", "content_index": 1,
                   "delta": "AQIDBA=="}"#;
    let actions = receive(&mut shared, text, 0, 70);
    assert!(matches!(actions[0], RealtimeAction::SendDownstream(Frame::TTSStarted { .. })));
    match &actions[1] {
        RealtimeAction::SendDownstream(Frame::TTSAudioRaw(f)) => {
            assert_eq!(&f.audio[..], &[1, 2, 3, 4]);
            assert_eq!((f.sample_rate, f.num_channels), (24000, 1));
        }
        other => panic!("expected audio, got {other:?}"),
    }
    assert!(shared.ttfb_reported);
    assert_eq!(receive(&mut shared, text, 0, 80).len(), 1);
    let current = shared.current_audio_response.as_ref().unwrap();
    assert_eq!((current.start_time_ms, current.total_size), (70, 8));
    let bad = r#"{"type": "response.output_audio.delta", "delta": "!"}"#;
    assert!(receive(&mut shared, bad, 0, 90).is_empty());
    let actions = receive(&mut shared, r#"{"type": "input_audio_buffer.speech_started"}"#, 0, 90);
    assert!(matches!(
        &actions[0],
        RealtimeAction::Send(ClientEvent::ItemTruncate { audio_end_ms: 0, content_index: 1, .. })
    ));
    assert!(matches!(actions[1], RealtimeAction::Broadcast(Frame::UserStartedSpeaking)));
    assert!(matches!(actions[2], RealtimeAction::Broadcast(Frame::Interruption)));
    assert!(shared.current_audio_response.is_none());
}

#[test]
fn function_call_runs_once() {
    let mut shared = SharedRealtimeState::new(false);
    receive(
        &mut shared,
        r#"{"type": "conversation.item.added",
            "item": {"id": "i", "type": "function_call", "call_id": "c", "name": "f"}}"#,
        0,
        0,
    );
    let done = r#"{"type": "response.function_call_arguments.done", "call_id": "c",
                   "arguments": "{\"x\":1}"}"#;
    let actions = receive(&mut shared, done, 0, 0);
    assert!(matches!(
        &actions[0],
        RealtimeAction::Broadcast(Frame::FunctionCallsStarted(calls)) if calls.len() == 1
    ));
    let call = match actions.into_iter().last() {
        Some(RealtimeAction::CallFunction(call)) => call,
        other => panic!("expected a call, got {other:?}"),
    };
    assert_eq!((call.function_name.as_str(), &call.arguments), ("f", &json(r#"{"x": 1}"#)));
    assert!(receive(&mut shared, done, 0, 0).is_empty());
    shared.context = Some(json(r#"{"messages": [7]}"#));
    let begun = shared.function_begun(&call, Some(true));
    assert!(matches!(
        &begun[..],
        [
            RealtimeAction::Broadcast(Frame::FunctionCallInProgress(p)),
            RealtimeAction::RunFunction { call, context },
        ] if p.cancel_on_interruption && p.tool_call_id == "c" && call.function_name == "f"
            && context.messages == vec![json("7")]
    ));
    let actions = shared.function_finished(&call, CallOutcome::NoHandler);
    assert!(matches!(actions[0], RealtimeAction::Broadcast(Frame::FunctionCallResult(_))));
    let values = sent(actions);
    assert_eq!(types(&values), vec!["conversation.item.create", "response.create"]);
    assert_eq!(values[0]["item"]["output"], r#"{"error":"No handler for f"}"#);
    assert!(shared.completed_tool_calls.contains("c"));
}

#[test]
fn own_items_begin_no_response() {
    let mut shared = SharedRealtimeState::new(false);
    shared.messages_added_manually.insert("mine".into());
    let text = r#"{"type": "conversation.item.added",
                   "item": {"id": "mine", "type": "message", "role": "assistant"}}"#;
    assert!(receive(&mut shared, text, 0, 0).is_empty());
    assert!(matches!(
        receive(&mut shared, text, 0, 0)[..],
        [RealtimeAction::SendDownstream(Frame::LLMFullResponseStart { skip_tts: None })]
    ));
}

#[test]
fn response_done_reports_usage_and_time() {
    let (mut svc, mut shared) = service(OpenAIRealtimeSettings::default());
    svc.commit(&mut shared, RealtimeCommit::StartMetrics, 3 * SEC);
    let actions = receive(
        &mut shared,
        r#"{"type": "response.done", "response": {"id": "r", "status": "completed", "output": [],
            "usage": {"total_tokens": 3, "input_tokens": 1, "output_tokens": 2}}}"#,
        5 * SEC,
        0,
    );
    match &actions[0] {
        RealtimeAction::SendDownstream(Frame::Metrics(data)) => {
            assert!(matches!(&data[0], MetricsData::LlmUsage { value, .. } if value.total_tokens == 3));
            assert!(matches!(&data[1], MetricsData::Processing { nanos, .. } if *nanos == 2 * SEC));
        }
        other => panic!("expected metrics, got {other:?}"),
    }
    assert!(matches!(
        actions[1],
        RealtimeAction::SendDownstream(Frame::LLMFullResponseEnd { .. })
    ));
    assert_eq!(receive(&mut shared, r#"{"type": "response.done"}"#, 0, 0).len(), 1);
}

#[test]
fn errors_end_the_receiving() {
    let mut shared = SharedRealtimeState::new(false);
    let known = r#"{"type": "error", "error": {"type": "t", "message": "m",
                    "code": "response_cancel_not_active"}}"#;
    assert!(receive(&mut shared, known, 0, 0).is_empty());
    let other = r#"{"type": "error", "error": {"type": "t", "message": "m", "code": "c"}}"#;
    assert!(matches!(
        &receive(&mut shared, other, 0, 0)[..],
        [RealtimeAction::PushError(e), RealtimeAction::Stop] if e == "OpenAI Realtime error: m (c)"
    ));
    let settings = OpenAIRealtimeSettings::default();
    assert!(matches!(
        &shared.receive(&settings, ServerMessage::Failed("reset".into()), 0, 0)[..],
        [RealtimeAction::PushError(e), RealtimeAction::Stop]
            if e == "OpenAI Realtime connection error: reset"
    ));
    assert!(matches!(
        shared.receive(&settings, ServerMessage::Closed, 0, 0)[..],
        [RealtimeAction::Stop]
    ));
    assert!(shared.receive(&settings, ServerMessage::Other, 0, 0).is_empty());
    assert!(receive(&mut shared, "no json", 0, 0).is_empty());
}

#[test]
fn texts_and_transcripts() {
    let mut shared = SharedRealtimeState::new(false);
    let actions = receive(
        &mut shared,
        r#"{"type": "response.output_audio_transcript.delta", "delta": "hey"}"#,
        0,
        0,
    );
    assert!(matches!(
        &actions[..],
        [
            RealtimeAction::SendDownstream(Frame::LLMText(a)),
            RealtimeAction::SendDownstream(Frame::TTSText(b)),
        ] if a.text == "hey" && b.text == "hey" && b.aggregated_by == "realtime"
    ));
    let actions = receive(
        &mut shared,
        r#"{"type": "conversation.item.input_audio_transcription.completed", "transcript": "t"}"#,
        0,
        0,
    );
    assert!(matches!(
        &actions[..],
        [RealtimeAction::SendUpstream(Frame::Transcription(t))] if t.text == "t" && t.finalized
    ));
    let actions = receive(
        &mut shared,
        r#"{"type": "conversation.item.input_audio_transcription.delta", "delta": "d"}"#,
        0,
        0,
    );
    assert!(matches!(
        &actions[..],
        [RealtimeAction::SendUpstream(Frame::InterimTranscription(t))] if t.text == "d"
    ));
}
