//! Settings of services.
use pipecat::collections::{TextSet, ValueMap};
use pipecat::frames::StartFrame;
use pipecat::services::openai::settings::{
    AudioConfiguration, AudioInput, AudioOutput, InputAudioNoiseReduction,
    InputAudioTranscription, OpenAIRealtimeSettings, ResponseProperties, SessionProperties,
    TurnDetection,
};
use pipecat::services::service_base::ServiceBase;
use pipecat::services::settings::{LLMSettings, STTSettings, Settings, TTSSettings};
use serde_json::{Number, Value};

fn json(text: &str) -> Value {
    serde_json::from_str(text).unwrap()
}

fn float(x: f64) -> Option<Number> {
    Number::from_f64(x)
}

#[test]
fn session_properties_skip_none_fields() {
    let props = SessionProperties::default();
    let value = props.to_value();
    assert_eq!(value, json(r#"{}"#));
}

#[test]
fn session_properties_includes_set_fields() {
    let props = SessionProperties {
        instructions: Some("You are helpful.".into()),
        output_modalities: Some(vec!["text".into(), "audio".into()]),
        ..Default::default()
    };
    let value = props.to_value();
    assert_eq!(value["instructions"], "You are helpful.");
    assert_eq!(value["output_modalities"], json(r#"["text", "audio"]"#));
    assert!(value.get("model").is_none());
    assert!(value.get("tools").is_none());
}

#[test]
fn turn_detection_server_vad_serialization() {
    let td = TurnDetection::ServerVad {
        threshold: float(0.5),
        prefix_padding_ms: Some(300),
        silence_duration_ms: None,
    };
    let value = td.to_value();
    assert_eq!(value["type"], "server_vad");
    assert_eq!(value["threshold"], 0.5);
    assert_eq!(value["prefix_padding_ms"], 300);
    assert!(value.get("silence_duration_ms").is_none());
}

#[test]
fn turn_detection_semantic_vad_serialization() {
    let td = TurnDetection::SemanticVad {
        eagerness: Some("medium".into()),
        create_response: Some(true),
        interrupt_response: None,
    };
    let value = td.to_value();
    assert_eq!(value["type"], "semantic_vad");
    assert_eq!(value["eagerness"], "medium");
    assert_eq!(value["create_response"], true);
}

#[test]
fn turn_detection_round_trip() {
    let td = TurnDetection::ServerVad {
        threshold: float(0.8),
        prefix_padding_ms: None,
        silence_duration_ms: Some(500),
    };
    let text = serde_json::to_string(&td.to_value()).unwrap();
    let back = TurnDetection::from_value(&json(&text)).unwrap();
    match back {
        TurnDetection::ServerVad {
            threshold,
            silence_duration_ms,
            ..
        } => {
            assert_eq!(threshold, float(0.8));
            assert_eq!(silence_duration_ms, Some(500));
        }
        _ => panic!("expected ServerVad"),
    }
}

#[test]
fn audio_input_turn_detection_disabled() {
    let input = AudioInput {
        turn_detection: Some(None),
        ..Default::default()
    };
    let value = input.to_value();
    assert!(value.get("turn_detection").is_some());
    assert!(value["turn_detection"].is_null());
}

#[test]
fn audio_input_turn_detection_omitted() {
    let input = AudioInput {
        turn_detection: None,
        ..Default::default()
    };
    let value = input.to_value();
    assert!(value.get("turn_detection").is_none());
}

#[test]
fn response_properties_default_empty() {
    let props = ResponseProperties::default();
    let value = props.to_value();
    assert_eq!(value, json(r#"{}"#));
}

#[test]
fn response_properties_with_modalities() {
    let props = ResponseProperties {
        output_modalities: Some(vec!["audio".into()]),
        ..Default::default()
    };
    let value = props.to_value();
    assert_eq!(value["output_modalities"], json(r#"["audio"]"#));
}

#[test]
fn llm_settings_partial_delta() {
    let mut settings = LLMSettings {
        model: Some("gpt-4".into()),
        temperature: float(0.7),
        ..Default::default()
    };

    let mut delta = Settings::new();
    delta.insert("temperature".into(), json(r#"0.9"#));
    delta.insert("max_tokens".into(), json(r#"1024"#));

    let changed = settings.apply_delta(&delta);
    assert_eq!(settings.temperature, float(0.9));
    assert_eq!(settings.max_tokens, Some(1024));
    assert_eq!(settings.model, Some("gpt-4".into())); // unchanged
    assert!(changed.contains(&"temperature".to_string()));
    assert!(changed.contains(&"max_tokens".to_string()));
    assert!(!changed.contains(&"model".to_string()));
}

#[test]
fn llm_settings_no_change_on_same_value() {
    let mut settings = LLMSettings {
        model: Some("gpt-4".into()),
        ..Default::default()
    };
    let mut delta = Settings::new();
    delta.insert("model".into(), json(r#""gpt-4""#));

    let changed = settings.apply_delta(&delta);
    assert!(changed.is_empty());
}

#[test]
fn tts_settings_delta() {
    let mut settings = TTSSettings::default();
    let mut delta = Settings::new();
    delta.insert("voice".into(), json(r#""alloy""#));
    delta.insert("language".into(), json(r#""en""#));

    let changed = settings.apply_delta(&delta);
    assert_eq!(settings.voice, Some("alloy".into()));
    assert_eq!(settings.language, Some("en".into()));
    assert_eq!(changed.len(), 2);
}

#[test]
fn stt_settings_delta() {
    let mut settings = STTSettings::default();
    let mut delta = Settings::new();
    delta.insert("model".into(), json(r#""nova-2""#));

    let changed = settings.apply_delta(&delta);
    assert_eq!(settings.model, Some("nova-2".into()));
    assert_eq!(changed, vec!["model"]);
}

#[test]
fn ignores_unknown_keys() {
    let mut settings = LLMSettings::default();
    let mut delta = Settings::new();
    delta.insert("unknown_field".into(), json(r#""value""#));

    let changed = settings.apply_delta(&delta);
    assert!(changed.is_empty());
}

#[test]
fn ignores_wrong_types() {
    let mut settings = LLMSettings::default();
    let mut delta = Settings::new();
    delta.insert("temperature".into(), json(r#""not_a_number""#));
    delta.insert("model".into(), json(r#"42"#));

    let changed = settings.apply_delta(&delta);
    assert!(changed.is_empty());
    assert!(settings.temperature.is_none());
    assert!(settings.model.is_none());
}

#[test]
fn new_with_model() {
    let base = ServiceBase::new("MyService".into(), Some("gpt-4".into()));
    assert_eq!(base.name(), "MyService");
    assert!(!base.metrics_enabled());
    assert!(!base.usage_metrics_enabled());
}

#[test]
fn handle_start_frame() {
    let mut base = ServiceBase::new("svc".into(), None);
    let start = StartFrame {
        enable_metrics: true,
        enable_usage_metrics: true,
        report_only_initial_ttfb: true,
        audio_in_sample_rate: 16000,
        audio_out_sample_rate: 24000,
        allow_interruptions: true,
    };
    base.handle_start_frame(&start);
    assert!(base.metrics_enabled());
    assert!(base.usage_metrics_enabled());
}

#[test]
fn a_delta_applies_once() {
    let mut settings = LLMSettings::default();
    let mut delta = Settings::new();
    delta.insert("top_p".into(), json("1"));
    delta.insert("seed".into(), json("4294967297"));
    delta.insert("system_instruction".into(), json(r#""be kind""#));
    let changed = settings.apply_delta(&delta);
    assert_eq!(changed, vec!["top_p", "seed", "system_instruction"]);
    assert_eq!(settings.top_p.as_ref().and_then(|n| n.as_f64()), Some(1.0));
    assert_eq!(settings.seed, Some(1));
    assert!(settings.apply_delta(&delta).is_empty());
}

#[test]
fn model_of_a_service() {
    let mut base = ServiceBase::new("svc".into(), None);
    assert!(base.model().is_none());
    base.set_model("m".into());
    assert_eq!(base.model().as_deref(), Some("m"));
    assert!(!base.report_only_initial_ttfb());
}

#[test]
fn session_properties_round_trip() {
    let props = SessionProperties {
        model: Some("m".into()),
        output_modalities: Some(vec!["text".into()]),
        instructions: None,
        audio: Some(AudioConfiguration {
            input: Some(AudioInput {
                transcription: Some(InputAudioTranscription {
                    model: None,
                    language: Some("en".into()),
                    prompt: None,
                }),
                noise_reduction: Some(InputAudioNoiseReduction {
                    noise_type: Some("near_field".into()),
                }),
                turn_detection: Some(Some(TurnDetection::SemanticVad {
                    eagerness: None,
                    create_response: None,
                    interrupt_response: Some(false),
                })),
            }),
            output: Some(AudioOutput { voice: Some("alloy".into()), speed: float(1.25) }),
        }),
        tools: Some(json("[1]")),
        tool_choice: Some("auto".into()),
        max_output_tokens: Some(json(r#""inf""#)),
        tracing: None,
    };
    let value = props.to_value();
    assert_eq!(
        value,
        json(
            r#"{"model": "m", "output_modalities": ["text"],
                "audio": {
                    "input": {
                        "transcription": {"language": "en"},
                        "noise_reduction": {"type": "near_field"},
                        "turn_detection": {"type": "semantic_vad", "interrupt_response": false}
                    },
                    "output": {"voice": "alloy", "speed": 1.25}
                },
                "tools": [1], "tool_choice": "auto", "max_output_tokens": "inf"}"#
        )
    );
    assert_eq!(SessionProperties::from_value(&value).unwrap().to_value(), value);
    assert_eq!(props.copy().to_value(), value);
}

#[test]
fn disabled_turn_detection_round_trip() {
    let off = json(r#"{"input": {"turn_detection": null}}"#);
    assert_eq!(AudioConfiguration::from_value(&off).unwrap().to_value(), off);
    let open = json(r#"{"input": {}}"#);
    assert_eq!(AudioConfiguration::from_value(&open).unwrap().to_value(), open);
}

#[test]
fn null_tools_read_as_none() {
    let props = SessionProperties::from_value(&json(r#"{"tools": null}"#)).unwrap();
    assert!(props.tools.is_none());
    assert!(SessionProperties::from_value(&json(r#"{"model": 3}"#)).is_none());
    assert!(TurnDetection::from_value(&json(r#"{"type": "other"}"#)).is_none());
}

#[test]
fn realtime_settings_start_empty() {
    let settings = OpenAIRealtimeSettings::new(LLMSettings::default());
    assert_eq!(settings.session_properties.to_value(), json("{}"));
}

#[test]
fn response_properties_with_everything() {
    let props = ResponseProperties {
        output_modalities: None,
        instructions: Some("i".into()),
        tools: Some(json("[]")),
        tool_choice: Some("none".into()),
        temperature: float(0.5),
        max_output_tokens: Some(json("5")),
    };
    let value = json(
        r#"{"instructions": "i", "tools": [], "tool_choice": "none", "temperature": 0.5,
            "max_output_tokens": 5}"#,
    );
    assert_eq!(props.to_value(), value);
    assert_eq!(props.copy().to_value(), value);
    assert_eq!(ResponseProperties::from_value(&value).unwrap().to_value(), value);
}

#[test]
fn response_properties_are_read() {
    let props = ResponseProperties::from_value(&json(r#"{"temperature": 1, "other": 2}"#)).unwrap();
    assert_eq!(props.temperature.and_then(|n| n.as_f64()), Some(1.0));
    assert!(props.tools.is_none());
    let row = json(r#"[["audio"], null, null, "auto", 0.5, 3]"#);
    let props = ResponseProperties::from_value(&row).unwrap();
    assert_eq!(props.tool_choice.as_deref(), Some("auto"));
    assert_eq!(props.max_output_tokens, Some(json("3")));
    assert!(ResponseProperties::from_value(&json("[null, null, null, null, null]")).is_none());
    assert!(ResponseProperties::from_value(&json(r#"{"tool_choice": 1}"#)).is_none());
    assert!(ResponseProperties::from_value(&json("3")).is_none());
}

#[test]
fn value_map_keeps_the_last_value() {
    let mut map = ValueMap::new();
    map.insert("a".into(), json("1"));
    map.insert("b".into(), json("2"));
    map.insert("a".into(), json("3"));
    assert_eq!(map.get("a"), Some(&json("3")));
    assert_eq!(map.get("c"), None);
    let mut object = json(r#"{"b": 0, "z": 9}"#);
    map.set_members(&mut object);
    assert_eq!(object, json(r#"{"a": 3, "b": 2, "z": 9}"#));
}

#[test]
fn text_set_holds_each_text_once() {
    let mut set = TextSet::new();
    set.insert("x".into());
    set.insert("x".into());
    assert!(set.contains("x") && !set.contains("y"));
    assert!(set.remove("x"));
    assert!(!set.remove("x"));
    assert!(!set.contains("x"));
    set.insert("y".into());
    set.clear();
    assert!(!set.contains("y"));
}
