//! Speech recognition and speech synthesis.
use bytes::Bytes;
use pipecat::collections::ValueMap;
use pipecat::frames::{AudioRawFrame, Direction, Frame, FrameEnvelope, StartFrame, TextFrame};
use pipecat::services::action::ServiceAction;
use pipecat::services::settings::{STTSettings, TTSSettings};
use pipecat::services::stt::{stt_process_frame, STTServiceState};
use pipecat::services::text_aggregator::TextAggregationMode;
use pipecat::services::tts::{tts_process_frame, uuid_context_id, TTSServiceState};
use pipecat::services::whisper::{
    model_filename, model_url, WhisperSTTService, PRE_SPEECH_BUFFER_BYTES,
};

fn envelope(frame: Frame) -> FrameEnvelope {
    FrameEnvelope { id: 1, pts: None, transport_destination: None, frame }
}

fn start(metrics: bool) -> Frame {
    Frame::Start(StartFrame {
        audio_in_sample_rate: 16000,
        audio_out_sample_rate: 24000,
        allow_interruptions: true,
        enable_metrics: metrics,
        enable_usage_metrics: false,
        report_only_initial_ttfb: false,
    })
}

fn audio(bytes: Vec<u8>) -> Frame {
    Frame::InputAudioRaw(AudioRawFrame {
        audio: Bytes::from(bytes),
        sample_rate: 16000,
        num_channels: 1,
    })
}

fn text(text: &str, skip_tts: Option<bool>) -> Frame {
    Frame::Text(TextFrame {
        text: text.into(),
        skip_tts,
        includes_inter_frame_spaces: true,
        append_to_context: false,
    })
}

fn model_delta(name: &str) -> ValueMap {
    let mut delta = ValueMap::new();
    delta.insert("model".into(), serde_json::from_str(&format!("{name:?}")).unwrap());
    delta
}

fn stt(state: &mut STTServiceState, frame: Frame) -> Vec<ServiceAction> {
    stt_process_frame(state, &envelope(frame), Direction::Downstream)
}

#[test]
fn recognition_runs_unless_muted() {
    let mut state = STTServiceState::new("stt".into(), STTSettings::default());
    let actions = stt(&mut state, audio(vec![1, 2]));
    assert!(matches!(
        &actions[..],
        [ServiceAction::SendDownstream(Frame::InputAudioRaw(a)), ServiceAction::RunStt(b)]
            if a.audio[..] == [1, 2] && b[..] == [1, 2]
    ));
    stt(&mut state, Frame::STTMute { mute: true });
    let actions = stt(&mut state, audio(vec![1, 2]));
    assert!(matches!(&actions[..], [ServiceAction::SendDownstream(_)]));
    state.audio_passthrough = false;
    assert!(stt(&mut state, audio(vec![1])).is_empty());
}

#[test]
fn recognition_keeps_track() {
    let mut state = STTServiceState::new("stt".into(), STTSettings::default());
    stt(&mut state, start(true));
    assert_eq!(state.sample_rate, 16000);
    assert!(state.base.metrics_enabled());
    stt(&mut state, Frame::UserStartedSpeaking);
    assert!(state.user_speaking);
    stt(&mut state, Frame::VADUserStoppedSpeaking { stop_secs: 0 });
    assert!(!state.user_speaking);
    stt(&mut state, Frame::STTUpdateSettings(model_delta("nova")));
    assert_eq!(state.base.model().as_deref(), Some("nova"));
    let actions = stt(&mut state, Frame::Interruption);
    assert!(matches!(&actions[..], [ServiceAction::ResetMetrics, ServiceAction::Forward(_)]));
}

fn tts(state: &mut TTSServiceState, frame: Frame) -> Vec<ServiceAction> {
    let actions = tts_process_frame(state, &envelope(frame), Direction::Downstream, 7);
    for action in &actions {
        if matches!(action, ServiceAction::FinishTextAggregation) {
            state.finish_text_aggregation();
        }
    }
    actions
}

fn spoken(actions: &[ServiceAction]) -> Vec<(String, String)> {
    actions
        .iter()
        .filter_map(|a| match a {
            ServiceAction::RunTts { text, context_id } => Some((text.clone(), context_id.clone())),
            _ => None,
        })
        .collect()
}

fn speech_state(mode: TextAggregationMode) -> TTSServiceState {
    TTSServiceState::new("tts".into(), TTSSettings::default(), mode, 24000)
}

#[test]
fn context_ids_are_numbered() {
    assert_eq!(uuid_context_id(12), "ctx_12");
    assert_ne!(uuid_context_id(1), uuid_context_id(11));
}

#[test]
fn sentences_are_spoken() {
    let mut state = speech_state(TextAggregationMode::Sentence);
    tts(&mut state, Frame::LLMFullResponseStart { skip_tts: None });
    assert!(state.llm_response_started);
    let actions = tts(&mut state, text("Hi there. How", None));
    assert_eq!(spoken(&actions), vec![("Hi there.".into(), "ctx_7".into())]);
    assert!(matches!(
        &actions[0],
        ServiceAction::SendDownstream(Frame::TTSText(t))
            if t.text == "Hi there." && t.aggregated_by == "sentence"
                && t.context_id.as_deref() == Some("ctx_7")
                && t.includes_inter_frame_spaces && !t.append_to_context
    ));
    let actions = tts(&mut state, Frame::LLMFullResponseEnd { skip_tts: None });
    assert_eq!(spoken(&actions), vec![("How".into(), "ctx_7".into())]);
    assert!(matches!(
        &actions[0],
        ServiceAction::SendDownstream(Frame::TTSText(t))
            if !t.includes_inter_frame_spaces && t.append_to_context
    ));
    assert!(matches!(actions.last(), Some(ServiceAction::Forward(_))));
}

#[test]
fn no_text_is_lost_but_whitespace() {
    let pieces = ["  One. Tw", "o!\tThr", "ee? ", "Fo", "ur "];
    let mut state = speech_state(TextAggregationMode::Sentence);
    let mut said = String::new();
    for piece in pieces {
        for (text, _) in spoken(&tts(&mut state, text(piece, None))) {
            said.push_str(&text);
        }
    }
    for (text, _) in spoken(&tts(&mut state, Frame::LLMFullResponseEnd { skip_tts: None })) {
        said.push_str(&text);
    }
    let solid = |s: &str| s.chars().filter(|c| !c.is_whitespace()).collect::<String>();
    assert_eq!(solid(&said), solid(&pieces.concat()));
}

#[test]
fn skipped_text_is_pushed_on() {
    let mut state = speech_state(TextAggregationMode::Token);
    let actions = tts(&mut state, text("hush", Some(true)));
    assert!(matches!(&actions[..], [ServiceAction::Forward(Direction::Downstream)]));
    state.set_push_text_frames(false);
    let actions = tts(&mut state, text("loud", Some(false)));
    assert!(matches!(&actions[..], [ServiceAction::RunTts { .. }]));
}

#[test]
fn aggregation_is_measured_up_to_the_first_segment() {
    let mut state = speech_state(TextAggregationMode::Sentence);
    tts(&mut state, start(true));
    let measured = |actions: &[ServiceAction]| -> (bool, bool) {
        (
            actions.iter().any(|a| matches!(a, ServiceAction::StartTextAggregation)),
            actions.iter().any(|a| matches!(a, ServiceAction::PushTextAggregationMetrics)),
        )
    };
    let actions = tts(&mut state, text("Hel", None));
    assert_eq!(measured(&actions), (true, false));
    let actions = tts(&mut state, text("lo", None));
    assert_eq!(measured(&actions), (false, false));
    let actions = tts(&mut state, text(". ", None));
    assert_eq!(measured(&actions), (false, true));
    let actions = tts(&mut state, text("More", None));
    assert_eq!(measured(&actions), (true, false));
    let actions = tts(&mut state, Frame::LLMFullResponseEnd { skip_tts: None });
    assert_eq!(measured(&actions), (false, true));
}

#[test]
fn interruption_silences() {
    let mut state = speech_state(TextAggregationMode::Sentence);
    tts(&mut state, text("unfinished", None));
    tts(&mut state, Frame::Interruption);
    assert!(spoken(&tts(&mut state, Frame::End)).is_empty());
    tts(&mut state, text("finished", None));
    assert_eq!(spoken(&tts(&mut state, Frame::End)), vec![("finished".into(), String::new())]);
}

#[test]
fn synthesis_settings_change_the_model() {
    let mut state = speech_state(TextAggregationMode::Sentence);
    tts(&mut state, Frame::TTSUpdateSettings(model_delta("hd")));
    assert_eq!(state.base.model().as_deref(), Some("hd"));
    assert_eq!(state.settings.model.as_deref(), Some("hd"));
}

// -- Whisper --

fn whisper(service: &mut WhisperSTTService, frame: Frame) -> Vec<ServiceAction> {
    service.process_frame(&envelope(frame), Direction::Downstream)
}

fn transcribed(actions: &[ServiceAction]) -> Option<usize> {
    actions.iter().find_map(|a| match a {
        ServiceAction::Transcribe(audio) => Some(audio.len()),
        _ => None,
    })
}

#[test]
fn pre_speech_audio_is_bounded() {
    let mut service = WhisperSTTService::new(STTSettings::default());
    whisper(&mut service, audio(vec![1; 20000]));
    whisper(&mut service, audio(vec![2; 20000]));
    let actions = whisper(&mut service, Frame::UserStoppedSpeaking);
    match &actions[..] {
        [ServiceAction::Transcribe(audio), ServiceAction::Forward(_)] => {
            assert_eq!(audio.len(), PRE_SPEECH_BUFFER_BYTES);
            assert_eq!((audio[0], audio[11999], audio[12000]), (1, 1, 2));
        }
        other => panic!("expected a transcription, got {other:?}"),
    }
    // The audio is gone.
    assert_eq!(transcribed(&whisper(&mut service, Frame::UserStoppedSpeaking)), None);
}

#[test]
fn speech_is_kept_whole() {
    let mut service = WhisperSTTService::new(STTSettings::default());
    whisper(&mut service, Frame::VADUserStartedSpeaking { start_secs: 0 });
    for _ in 0..3 {
        whisper(&mut service, audio(vec![0; 20000]));
    }
    let actions = whisper(&mut service, Frame::VADUserStoppedSpeaking { stop_secs: 0 });
    assert_eq!(transcribed(&actions), Some(60000));
    whisper(&mut service, audio(vec![0; 10]));
    whisper(&mut service, Frame::Interruption);
    assert_eq!(transcribed(&whisper(&mut service, Frame::UserStoppedSpeaking)), None);
    whisper(&mut service, audio(vec![0; 10]));
    whisper(&mut service, Frame::STTMute { mute: true });
    assert_eq!(transcribed(&whisper(&mut service, Frame::UserStoppedSpeaking)), None);
    assert!(service.state().muted);
}

#[test]
fn segments_are_joined_and_trimmed() {
    let service = WhisperSTTService::new(STTSettings {
        model: None,
        language: Some("en".into()),
    });
    match service.transcription(&vec![" Hello".into(), " world. ".into()]) {
        Some(Frame::Transcription(t)) => {
            assert_eq!(t.text, "Hello world.");
            assert_eq!(t.user_id, "user");
            assert_eq!(t.language.as_deref(), Some("en"));
            assert!(t.finalized);
        }
        other => panic!("expected a transcription, got {other:?}"),
    }
    assert!(service.transcription(&vec![" ".into()]).is_none());
    assert_eq!(service.language().as_deref(), Some("en"));
}

#[test]
fn model_names() {
    assert_eq!(model_filename("base.en"), "ggml-base.en.bin");
    assert_eq!(
        model_url("large"),
        "https://huggingface.co/ggerganov/whisper.cpp/resolve/main/ggml-large.bin"
    );
}
