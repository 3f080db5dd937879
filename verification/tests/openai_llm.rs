//! The chat completion service.
use pipecat::collections::ValueMap;
use pipecat::frames::{
    Direction, Frame, FrameEnvelope, FunctionCallFromLLM, StartFrame, TextFrame,
};
use pipecat::services::action::ServiceAction;
use pipecat::services::openai::llm::{
    call_completed, call_in_progress, call_result, parse_usage, CallAction, CallOutcome,
    CompletionStream, ContextParts, FunctionCallRun, LlmAction, LlmStep, OpenAILLMService, ToolCalls,
};
use pipecat::services::openai::settings::OpenAILLMSettings;
use pipecat::services::settings::LLMSettings;
use serde_json::{Number, Value};

fn json(text: &str) -> Value {
    serde_json::from_str(text).unwrap()
}

fn envelope(frame: Frame) -> FrameEnvelope {
    FrameEnvelope { id: 1, pts: None, transport_destination: None, frame }
}

fn service(base: LLMSettings) -> OpenAILLMService {
    OpenAILLMService::new("test-key".into(), OpenAILLMSettings::new(base))
}

#[test]
fn parse_usage_full() {
    let usage = json(
        r#"{
            "prompt_tokens": 100,
            "completion_tokens": 50,
            "total_tokens": 150,
            "prompt_tokens_details": { "cached_tokens": 20 },
            "completion_tokens_details": { "reasoning_tokens": 10 }
        }"#,
    );
    let result = parse_usage(&usage);
    assert_eq!(result.prompt_tokens, 100);
    assert_eq!(result.completion_tokens, 50);
    assert_eq!(result.total_tokens, 150);
    assert_eq!(result.cache_read_input_tokens, Some(20));
    assert_eq!(result.reasoning_tokens, Some(10));
}

#[test]
fn parse_usage_minimal() {
    let usage = json(r#"{"prompt_tokens": 10, "completion_tokens": 5, "total_tokens": 15}"#);
    let result = parse_usage(&usage);
    assert_eq!(result.prompt_tokens, 10);
    assert_eq!(result.completion_tokens, 5);
    assert_eq!(result.total_tokens, 15);
    assert_eq!(result.cache_read_input_tokens, None);
    assert_eq!(result.reasoning_tokens, None);
}

#[test]
fn build_request_body_basic() {
    let svc = service(LLMSettings {
        model: Some("gpt-4".into()),
        temperature: Number::from_f64(0.7),
        ..LLMSettings::default()
    });
    let context = json(r#"{"messages": [{"role": "user", "content": "Hello"}]}"#);
    let body = svc.build_request_body(&context);
    assert_eq!(body["model"], "gpt-4");
    assert_eq!(body["temperature"], 0.7);
    assert_eq!(body["stream"], true);
    assert_eq!(body["messages"].as_array().unwrap().len(), 1);
}

#[test]
fn build_request_body_with_system_instruction() {
    let svc = service(LLMSettings {
        model: Some("gpt-4".into()),
        system_instruction: Some("You are helpful.".into()),
        ..LLMSettings::default()
    });
    let context = json(r#"{"messages": [{"role": "user", "content": "Hello"}]}"#);
    let body = svc.build_request_body(&context);
    let messages = body["messages"].as_array().unwrap();
    assert_eq!(messages.len(), 2);
    assert_eq!(messages[0]["role"], "system");
    assert_eq!(messages[0]["content"], "You are helpful.");
    assert_eq!(messages[1]["role"], "user");
}

#[test]
fn build_request_body_with_tools() {
    let svc = service(LLMSettings { model: Some("gpt-4".into()), ..LLMSettings::default() });
    let context = json(
        r#"{
            "messages": [{"role": "user", "content": "weather?"}],
            "tools": [{"type": "function", "function": {"name": "get_weather"}}],
            "tool_choice": "auto"
        }"#,
    );
    let body = svc.build_request_body(&context);
    assert!(body["tools"].is_array());
    assert_eq!(body["tool_choice"], "auto");
}

#[test]
fn build_request_body_extra_overrides() {
    let mut settings = OpenAILLMSettings::new(LLMSettings {
        model: Some("gpt-4".into()),
        temperature: Number::from_f64(0.5),
        ..LLMSettings::default()
    });
    settings.extra.insert("temperature".into(), json("0.9"));
    settings.extra.insert("custom_field".into(), json(r#""val""#));
    let svc = OpenAILLMService::new("test-key".into(), settings);
    let body = svc.build_request_body(&json(r#"{"messages": []}"#));
    assert_eq!(body["temperature"], 0.9);
    assert_eq!(body["custom_field"], "val");
}

#[test]
fn request_body_exact() {
    let mut settings = OpenAILLMSettings::new(LLMSettings {
        model: None,
        temperature: None,
        max_tokens: Some(7),
        top_p: Number::from_f64(0.25),
        frequency_penalty: None,
        presence_penalty: None,
        seed: Some(3),
        system_instruction: None,
    });
    settings.max_completion_tokens = Some(9);
    let svc = OpenAILLMService::new("k".into(), settings);
    let body = svc.build_request_body(&json(r#"{"messages": [], "tools": []}"#));
    assert_eq!(body["max_tokens"], 7);
    assert_eq!(body["max_completion_tokens"], 9);
    assert_eq!(body["top_p"], 0.25);
    assert_eq!(body["seed"], 3);
    assert_eq!(body["stream_options"], json(r#"{"include_usage": true}"#));
    assert!(body.get("frequency_penalty").is_none());
}

/// Runs the accumulation of tool calls on canned events.
fn accumulate_tool_calls(chunks: &[Value]) -> (Vec<String>, Vec<String>, Vec<String>) {
    let mut stream = CompletionStream::new(None, false, false);
    for chunk in chunks {
        stream.take_event(chunk);
    }
    let mut names = Vec::new();
    let mut args = Vec::new();
    let mut ids = Vec::new();
    for call in stream.finish() {
        names.push(call.name);
        args.push(call.arguments);
        ids.push(call.id);
    }
    (names, args, ids)
}

#[test]
fn tool_call_accumulation_across_chunks() {
    let chunks = vec![
        json(
            r#"{"choices": [{"delta": {"tool_calls": [{
                "index": 0, "id": "call_abc",
                "function": {"name": "get_weather", "arguments": "{\"loc"}
            }]}}]}"#,
        ),
        json(
            r#"{"choices": [{"delta": {"tool_calls": [{
                "index": 0,
                "function": {"arguments": "ation\": \"NYC\"}"}
            }]}}]}"#,
        ),
    ];
    let (names, args, ids) = accumulate_tool_calls(&chunks);
    assert_eq!(names, vec!["get_weather"]);
    assert_eq!(ids, vec!["call_abc"]);
    let parsed: Value = serde_json::from_str(&args[0]).unwrap();
    assert_eq!(parsed["location"], "NYC");
}

#[test]
fn tool_call_accumulation_multiple_calls() {
    let chunks = vec![
        json(
            r#"{"choices": [{"delta": {"tool_calls": [{
                "index": 0, "id": "call_1",
                "function": {"name": "get_weather", "arguments": "{\"city\": \"NYC\"}"}
            }]}}]}"#,
        ),
        json(
            r#"{"choices": [{"delta": {"tool_calls": [{
                "index": 1, "id": "call_2",
                "function": {"name": "get_time", "arguments": "{\"tz\": \"EST\"}"}
            }]}}]}"#,
        ),
    ];
    let (names, _args, ids) = accumulate_tool_calls(&chunks);
    assert_eq!(names, vec!["get_weather", "get_time"]);
    assert_eq!(ids, vec!["call_1", "call_2"]);
}

#[test]
fn tool_call_pieces_accumulate() {
    let a = json(r#"{"index": 0, "id": "x", "function": {"name": "f", "arguments": "{"}}"#);
    let b = json(r#"{"index": 0, "function": {"arguments": "}"}}"#);
    let mut one = ToolCalls::new();
    one.take_all(&vec![a.clone(), b.clone()]);
    let mut two = ToolCalls::new();
    two.take(&a);
    two.take(&b);
    for calls in [one.finish(), two.finish()] {
        assert_eq!(calls.len(), 1);
        assert_eq!((calls[0].name.as_str(), calls[0].arguments.as_str()), ("f", "{}"));
    }
    assert!(ToolCalls::new().finish().is_empty());
}

fn texts(actions: &[LlmAction]) -> Vec<String> {
    actions
        .iter()
        .filter_map(|a| match a {
            LlmAction::SendDownstream(Frame::LLMText(t)) => Some(t.text.clone()),
            _ => None,
        })
        .collect()
}

#[test]
fn chunk_boundaries_do_not_matter() {
    let body = "data: {\"choices\": [{\"delta\": {\"content\": \"Hel\"}}]}\n\n\
                : comment\n\
                data: {\"choices\": [{\"delta\": {\"content\": \"lo\"}}]}\r\n\
                data: {\"usage\": {\"prompt_tokens\": 1, \"completion_tokens\": 2, \"total_tokens\": 3}}\n\
                data: not json\n\
                data: [DONE]\n";
    let mut whole = CompletionStream::new(Some(true), true, true);
    let at_once = whole.take_chunk(body.as_bytes());
    let mut pieces = CompletionStream::new(Some(true), true, true);
    let mut bit_by_bit = Vec::new();
    for byte in body.as_bytes() {
        bit_by_bit.extend(pieces.take_chunk(&[*byte]));
    }
    assert_eq!(format!("{at_once:?}"), format!("{bit_by_bit:?}"));
    assert_eq!(texts(&at_once), vec!["Hel", "lo"]);
    assert!(matches!(at_once[0], LlmAction::PushTtfb));
    assert!(matches!(&at_once[1], LlmAction::SendDownstream(Frame::LLMText(t)) if t.skip_tts == Some(true)));
    assert!(matches!(&at_once[3], LlmAction::PushUsage(u) if u.total_tokens == 3));
    assert_eq!(at_once.len(), 4);
}

#[test]
fn undecodable_bytes_are_replaced() {
    let mut stream = CompletionStream::new(None, false, false);
    let mut chunk = b"data: {\"choices\": [{\"delta\": {\"content\": \"a".to_vec();
    chunk.push(0xff);
    chunk.extend_from_slice(b"\"}}]}\n");
    assert_eq!(texts(&stream.take_chunk(&chunk)), vec!["a\u{fffd}"]);
}

#[test]
fn llm_context_reconstruction_includes_tools() {
    let context_value = json(
        r#"{
            "messages": [{"role": "user", "content": "weather?"}],
            "tools": [{"type": "function", "function": {"name": "get_weather"}}],
            "tool_choice": "auto"
        }"#,
    );
    let parts = ContextParts::from_context(&context_value);
    assert!(parts.tools.is_some());
    assert_eq!(parts.tools.as_ref().unwrap()[0]["function"]["name"], "get_weather");
    assert_eq!(parts.tool_choice, Some(json(r#""auto""#)));
    assert_eq!(parts.messages.len(), 1);
}

#[test]
fn function_call_timeout() {
    let result = call_result("slow_fn", CallOutcome::TimedOut);
    assert!(result.is_null());
}

#[test]
fn cancel_on_interruption_propagation() {
    let call = FunctionCallFromLLM {
        function_name: "cancellable_fn".into(),
        tool_call_id: "call_1".into(),
        arguments: json("{}"),
    };
    match call_in_progress(&call, Some(true)) {
        Frame::FunctionCallInProgress(frame) => {
            assert_eq!(frame.function_name, "cancellable_fn");
            assert_eq!(frame.tool_call_id, "call_1");
            assert_eq!(frame.arguments, json("{}"));
            assert!(frame.cancel_on_interruption);
        }
        other => panic!("expected FunctionCallInProgress, got {other:?}"),
    }
    assert!(matches!(
        call_in_progress(&call, None),
        Frame::FunctionCallInProgress(f) if !f.cancel_on_interruption
    ));
}

#[test]
fn call_results() {
    assert_eq!(call_result("f", CallOutcome::Returned(json("[1]"))), json("[1]"));
    assert_eq!(
        call_result("f", CallOutcome::NoHandler),
        json(r#"{"error": "No handler for f"}"#)
    );
    let call = FunctionCallFromLLM {
        function_name: "f".into(),
        tool_call_id: "c".into(),
        arguments: json("{}"),
    };
    match call_completed(&call, json("5")) {
        Frame::FunctionCallResult(r) => {
            assert_eq!(r.result, json("5"));
            assert_eq!(r.run_llm, Some(true));
        }
        other => panic!("expected FunctionCallResult, got {other:?}"),
    }
}

#[test]
fn calls_run_one_after_the_other() {
    let mut calls = ToolCalls::new();
    calls.take_all(&vec![
        json(r#"{"index": 0, "id": "1", "function": {"name": "f", "arguments": "{\"a\":1}"}}"#),
        json(r#"{"index": 1, "id": "2", "function": {"name": "g", "arguments": "broken"}}"#),
    ]);
    let context = json(r#"{"messages": [1], "tools": [2]}"#);
    let mut run = FunctionCallRun::new(&calls.finish(), &context).unwrap();
    assert_eq!(run.context().messages, vec![json("1")]);
    assert!(matches!(
        &run.begin()[..],
        [CallAction::Broadcast(Frame::FunctionCallsStarted(all)), CallAction::LookUp(name)]
            if all.len() == 2 && name == "f"
    ));
    assert!(matches!(
        &run.looked_up(Some(true))[..],
        [CallAction::Broadcast(Frame::FunctionCallInProgress(p)), CallAction::Run(call)]
            if p.tool_call_id == "1" && p.cancel_on_interruption
                && call.arguments == json(r#"{"a": 1}"#)
    ));
    assert!(matches!(
        &run.finished(CallOutcome::TimedOut)[..],
        [CallAction::Broadcast(Frame::FunctionCallResult(r)), CallAction::LookUp(name)]
            if r.function_name == "f" && r.result.is_null() && name == "g"
    ));
    assert!(matches!(
        &run.looked_up(None)[..],
        [CallAction::Broadcast(Frame::FunctionCallInProgress(p)), CallAction::Run(call)]
            if !p.cancel_on_interruption && call.arguments == json("{}")
    ));
    assert!(matches!(
        &run.finished(CallOutcome::NoHandler)[..],
        [CallAction::Broadcast(Frame::FunctionCallResult(r))] if r.tool_call_id == "2"
    ));
    assert!(run.looked_up(None).is_empty());
    assert!(run.finished(CallOutcome::TimedOut).is_empty());
}

#[test]
fn replies_without_calls_run_nothing() {
    let context = json("{}");
    let stream = CompletionStream::new(None, false, false);
    assert!(stream.into_run(&context).is_none());
    let mut stream = CompletionStream::new(None, false, false);
    stream.take_event(&json(
        r#"{"choices": [{"delta": {"tool_calls": [
            {"index": 0, "id": "1", "function": {"name": "f", "arguments": "{}"}}
        ]}}]}"#,
    ));
    let run = stream.into_run(&context).unwrap();
    assert!(matches!(&run.begin()[1], CallAction::LookUp(name) if name == "f"));
    assert!(FunctionCallRun::new(&Vec::new(), &context).is_none());
}

/// Routes a frame that is no context.
fn route(svc: &mut OpenAILLMService, frame: Frame) -> Vec<ServiceAction> {
    match svc.process_frame(&envelope(frame), Direction::Downstream) {
        LlmStep::Route(actions) => actions,
        other => panic!("expected routing, got {other:?}"),
    }
}

#[test]
fn context_is_answered() {
    let mut svc = service(LLMSettings { model: Some("m".into()), ..LLMSettings::default() })
        .with_base_url("http://host/v1".into());
    let start = Frame::Start(StartFrame {
        audio_in_sample_rate: 16000,
        audio_out_sample_rate: 24000,
        allow_interruptions: true,
        enable_metrics: true,
        enable_usage_metrics: false,
        report_only_initial_ttfb: false,
    });
    route(&mut svc, start);
    svc.state_mut().skip_tts = Some(false);
    assert_eq!(svc.authorization(), "Bearer test-key");
    let context = json(r#"{"messages": []}"#);
    let step = svc.process_frame(&envelope(Frame::LLMContext(context)), Direction::Downstream);
    let LlmStep::Answer(actions) = step else { panic!("expected an answer, got {step:?}") };
    assert!(matches!(
        actions[0],
        LlmAction::SendDownstream(Frame::LLMFullResponseStart { skip_tts: Some(false) })
    ));
    assert!(matches!(actions[1], LlmAction::StartTtfb));
    assert!(matches!(actions[2], LlmAction::StartProcessing));
    assert!(matches!(
        &actions[3],
        LlmAction::Request { url, .. } if url == "http://host/v1/chat/completions"
    ));
    let error = OpenAILLMService::api_error("500", "oops");
    assert_eq!(error, "OpenAI API error 500: oops");
    let actions = svc.end_context(Some(&error));
    assert!(matches!(
        &actions[0],
        LlmAction::PushError(e) if e == "OpenAI error: OpenAI API error 500: oops"
    ));
    assert!(matches!(actions[1], LlmAction::PushProcessingMetrics));
    assert!(matches!(
        actions[2],
        LlmAction::SendDownstream(Frame::LLMFullResponseEnd { skip_tts: Some(false) })
    ));
    let mut stream = svc.open_stream();
    let actions = stream.take_text("data: {\"choices\": [{\"delta\": {\"content\": \"x\"}}]}\n");
    assert!(matches!(actions[0], LlmAction::PushTtfb));
    assert_eq!(texts(&actions), vec!["x"]);
}

#[test]
fn process_frame_forwards_non_llm_frames() {
    let mut svc = service(LLMSettings { model: Some("gpt-4".into()), ..LLMSettings::default() });
    let frame = Frame::Text(TextFrame {
        text: "hello".into(),
        skip_tts: None,
        includes_inter_frame_spaces: false,
        append_to_context: true,
    });
    let actions = route(&mut svc, frame);
    assert_eq!(actions.len(), 1);
    assert!(matches!(actions[0], ServiceAction::Forward(Direction::Downstream)));
    assert_eq!(svc.state().base.name(), "OpenAILLMService");
}

#[test]
fn interruption_resets_metrics() {
    let mut svc = service(LLMSettings { model: Some("gpt-4".into()), ..LLMSettings::default() });
    let actions = route(&mut svc, Frame::Interruption);
    assert!(matches!(
        actions[..],
        [ServiceAction::ResetMetrics, ServiceAction::Forward(Direction::Downstream)]
    ));
}

#[test]
fn settings_update_changes_model() {
    let mut svc = service(LLMSettings { model: Some("gpt-4".into()), ..LLMSettings::default() });
    let mut delta = ValueMap::new();
    delta.insert("model".into(), json(r#""gpt-4-turbo""#));
    route(&mut svc, Frame::LLMUpdateSettings(delta));
    assert_eq!(svc.state().settings.model.as_deref(), Some("gpt-4-turbo"));
    assert_eq!(svc.state().base.model().as_deref(), Some("gpt-4-turbo"));
}
