//! Detection of user turns.
use bytes::Bytes;
use pipecat::frames::{
    AudioRawFrame, Frame, InterimTranscriptionFrame, MetricsData, StartFrame, TranscriptionFrame,
};
use pipecat::turns::action::TurnAction;
use pipecat::turns::controller::UserTurnController;
use pipecat::turns::start::{
    ExternalUserTurnStartStrategy, MinWordsUserTurnStartStrategy, StartStrategy,
    TranscriptionUserTurnStartStrategy, VadUserTurnStartStrategy,
};
use pipecat::turns::stop::{
    AnalyzerCall, AnalyzerReply, EndOfTurnState, ExternalUserTurnStopStrategy,
    SpeechTimeoutUserTurnStopStrategy, StopStrategy, TurnAnalyzerUserTurnStopStrategy,
};
use pipecat::turns::strategies::{AnyStartStrategy, AnyStopStrategy, UserTurnStrategies};

const MS: u64 = 1_000_000;

type Controller = UserTurnController<AnyStartStrategy, AnyStopStrategy>;

fn make_controller(stop_timeout: u64) -> Controller {
    let strategies = UserTurnStrategies {
        start: vec![
            AnyStartStrategy::Vad(VadUserTurnStartStrategy::new()),
            AnyStartStrategy::Transcription(TranscriptionUserTurnStartStrategy::new()),
        ],
        stop: vec![AnyStopStrategy::SpeechTimeout(
            SpeechTimeoutUserTurnStopStrategy::new(100 * MS),
        )],
    };
    UserTurnController::new(strategies, stop_timeout)
}

fn vad_started() -> Frame {
    Frame::VADUserStartedSpeaking { start_secs: 200 * MS }
}

fn vad_stopped() -> Frame {
    vad_stopped_after(200 * MS)
}

fn vad_stopped_after(stop_secs: u64) -> Frame {
    Frame::VADUserStoppedSpeaking { stop_secs }
}

fn transcription(text: &str) -> Frame {
    transcript(text, true)
}

fn transcript(text: &str, finalized: bool) -> Frame {
    Frame::Transcription(TranscriptionFrame {
        text: text.into(),
        user_id: String::new(),
        timestamp: None,
        language: None,
        finalized,
        result: None,
    })
}

fn interim(text: &str) -> Frame {
    Frame::InterimTranscription(InterimTranscriptionFrame {
        text: text.into(),
        user_id: String::new(),
        timestamp: None,
        language: None,
        result: None,
    })
}

fn starts(actions: &[TurnAction]) -> usize {
    actions.iter().filter(|a| matches!(a, TurnAction::UserTurnStarted(_))).count()
}

fn stops(actions: &[TurnAction]) -> usize {
    actions.iter().filter(|a| matches!(a, TurnAction::UserTurnStopped(_))).count()
}

fn timeouts(actions: &[TurnAction]) -> usize {
    actions.iter().filter(|a| matches!(a, TurnAction::UserTurnStopTimeout)).count()
}

// -- Controller --

#[test]
fn turn_start_on_vad() {
    let mut ctrl = make_controller(5000 * MS);
    ctrl.setup(0);
    let actions = ctrl.process_frame(&vad_started(), 0);
    assert!(starts(&actions) > 0);
    assert!(ctrl.is_user_turn());
    assert!(ctrl.is_user_speaking());
    ctrl.cleanup();
}

#[test]
fn double_start_prevention() {
    let mut ctrl = make_controller(5000 * MS);
    ctrl.setup(0);
    let actions1 = ctrl.process_frame(&vad_started(), 0);
    assert_eq!(starts(&actions1), 1);
    let actions2 = ctrl.process_frame(&vad_started(), 1);
    assert_eq!(starts(&actions2), 0);
    ctrl.cleanup();
}

#[test]
fn double_stop_prevention() {
    let mut ctrl = make_controller(5000 * MS);
    ctrl.setup(0);
    ctrl.process_frame(&vad_started(), 0);
    ctrl.process_frame(&transcription("hello"), 0);
    ctrl.process_frame(&vad_stopped(), 0);
    let actions = ctrl.process_frame(&vad_started(), 200 * MS);
    assert!(stops(&actions) <= 1);
    ctrl.cleanup();
}

#[test]
fn transcription_also_starts_turn() {
    let mut ctrl = make_controller(5000 * MS);
    ctrl.setup(0);
    let actions = ctrl.process_frame(&transcription("hello"), 0);
    assert!(starts(&actions) > 0);
    ctrl.cleanup();
}

#[test]
fn global_timeout_fires_when_turn_active_and_not_speaking() {
    let mut ctrl = make_controller(200 * MS);
    ctrl.setup(0);
    ctrl.process_frame(&vad_started(), 0);
    ctrl.process_frame(&vad_stopped(), 0);
    assert!(ctrl.is_user_turn());
    assert!(!ctrl.is_user_speaking());
    let actions = ctrl.process_frame(&Frame::UserStoppedSpeaking, 400 * MS);
    assert!(timeouts(&actions) > 0);
    assert_eq!(stops(&actions), 1);
    assert!(!ctrl.is_user_turn());
    ctrl.cleanup();
}

#[test]
fn global_timeout_does_not_fire_when_not_in_turn() {
    let mut ctrl = make_controller(100 * MS);
    ctrl.setup(0);
    let actions = ctrl.process_frame(&Frame::UserStartedSpeaking, 200 * MS);
    assert_eq!(timeouts(&actions), 0);
    ctrl.cleanup();
}

#[test]
fn global_timeout_resets_on_activity() {
    let mut ctrl = make_controller(200 * MS);
    ctrl.setup(0);
    ctrl.process_frame(&vad_started(), 0);
    ctrl.process_frame(&vad_stopped(), 0);
    ctrl.process_frame(&interim("hel"), 100 * MS);
    let actions = ctrl.process_frame(&Frame::UserStoppedSpeaking, 250 * MS);
    assert_eq!(timeouts(&actions), 0);
    ctrl.cleanup();
}

#[test]
fn full_turn_lifecycle() {
    let mut ctrl = make_controller(5000 * MS);
    ctrl.setup(0);
    let actions = ctrl.process_frame(&vad_started(), 0);
    assert!(starts(&actions) > 0);
    assert!(ctrl.is_user_turn());
    ctrl.process_frame(&transcription("hello world"), 0);
    ctrl.process_frame(&vad_stopped(), 0);
    let actions = ctrl.process_frame(&vad_started(), 200 * MS);
    assert!(stops(&actions) > 0);
    ctrl.cleanup();
}

#[test]
fn update_strategies() {
    let mut ctrl = make_controller(5000 * MS);
    ctrl.setup(0);
    let new_strategies = UserTurnStrategies {
        start: vec![AnyStartStrategy::Vad(VadUserTurnStartStrategy::new())],
        stop: vec![AnyStopStrategy::SpeechTimeout(
            SpeechTimeoutUserTurnStopStrategy::new(500 * MS),
        )],
    };
    ctrl.update_strategies(new_strategies);
    let actions = ctrl.process_frame(&vad_started(), 0);
    assert!(starts(&actions) > 0);
    ctrl.cleanup();
}

#[test]
fn turn_stops_before_the_next_one_starts() {
    let mut ctrl = make_controller(5000 * MS);
    ctrl.setup(0);
    ctrl.process_frame(&vad_started(), 0);
    ctrl.process_frame(&transcription("hello"), 0);
    ctrl.process_frame(&vad_stopped(), 0);
    let actions = ctrl.process_frame(&vad_started(), 200 * MS);
    assert_eq!(actions.len(), 2);
    assert!(matches!(actions[0], TurnAction::UserTurnStopped(_)));
    assert!(matches!(actions[1], TurnAction::UserTurnStarted(_)));
    assert!(ctrl.is_user_turn());
}

/// A strategy that starts a turn with every transcription, and remembers
/// whether the bot spoke.
fn min_words_controller() -> Controller {
    let strategies = UserTurnStrategies {
        start: vec![AnyStartStrategy::MinWords(MinWordsUserTurnStartStrategy::new(3))],
        stop: vec![AnyStopStrategy::SpeechTimeout(
            SpeechTimeoutUserTurnStopStrategy::new(100 * MS),
        )],
    };
    let mut ctrl = UserTurnController::new(strategies, 5000 * MS);
    ctrl.setup(0);
    ctrl
}

#[test]
fn start_strategies_are_reset_when_a_turn_stops() {
    let mut ctrl = min_words_controller();
    assert_eq!(starts(&ctrl.process_frame(&transcription("hello"), 0)), 1);
    // The bot speaks during the turn, so three words would be needed.
    ctrl.process_frame(&Frame::BotStartedSpeaking, 0);
    let actions = ctrl.process_frame(&Frame::Wakeup, 200 * MS);
    assert_eq!(stops(&actions), 1);
    assert!(!ctrl.is_user_turn());
    // The stop has reset the strategy: one word is enough again.
    assert_eq!(starts(&ctrl.process_frame(&transcription("hello"), 300 * MS)), 1);
}

#[test]
fn stop_strategies_are_reset_when_a_turn_starts() {
    let mut ctrl = min_words_controller();
    ctrl.process_frame(&Frame::BotStartedSpeaking, 0);
    // Too short to start a turn, but the stop strategy has text and a timer.
    assert_eq!(starts(&ctrl.process_frame(&transcription("hm"), 0)), 0);
    assert_eq!(ctrl.next_deadline(), Some(100 * MS));
    // The start drops both; the timer is that of the new text.
    assert_eq!(starts(&ctrl.process_frame(&transcription("one two three"), 60 * MS)), 1);
    assert_eq!(ctrl.next_deadline(), Some(160 * MS));
    assert_eq!(stops(&ctrl.process_frame(&Frame::Wakeup, 120 * MS)), 0);
    assert_eq!(stops(&ctrl.process_frame(&Frame::Wakeup, 160 * MS)), 1);
}

#[test]
fn timeouts_are_followed_by_stops() {
    let mut ctrl = make_controller(200 * MS);
    ctrl.setup(0);
    let mut all = Vec::new();
    for (frame, now) in [
        (vad_started(), 0),
        (vad_stopped(), 10 * MS),
        (Frame::Wakeup, 400 * MS),
        (vad_started(), 500 * MS),
        (vad_stopped(), 510 * MS),
        (Frame::Wakeup, 900 * MS),
        (Frame::Wakeup, 2000 * MS),
    ] {
        all.extend(ctrl.process_frame(&frame, now));
    }
    let kinds: Vec<&str> = all
        .iter()
        .map(|a| match a {
            TurnAction::UserTurnStarted(_) => "start",
            TurnAction::UserTurnStopped(_) => "stop",
            TurnAction::UserTurnStopTimeout => "timeout",
            _ => "other",
        })
        .collect();
    assert_eq!(kinds, vec!["start", "timeout", "stop", "start", "timeout", "stop"]);
    assert!(!ctrl.is_user_turn());
}

#[test]
fn controller_without_setup_has_no_timeout() {
    let mut ctrl = make_controller(MS);
    ctrl.process_frame(&vad_started(), 0);
    ctrl.process_frame(&vad_stopped(), 0);
    let actions = ctrl.process_frame(&Frame::Wakeup, 1000 * MS);
    assert_eq!(timeouts(&actions), 0);
}

#[test]
fn next_deadline_is_the_earliest() {
    let mut ctrl = make_controller(5000 * MS);
    ctrl.setup(10);
    assert_eq!(ctrl.next_deadline(), Some(5000 * MS + 10));
    ctrl.process_frame(&vad_started(), 20);
    ctrl.process_frame(&vad_stopped(), 30);
    assert_eq!(ctrl.next_deadline(), Some(100 * MS + 30));
    ctrl.cleanup();
    assert_eq!(ctrl.next_deadline(), None);
}

#[test]
fn strategy_sets() {
    let set = UserTurnStrategies::vad_with_speech_timeout(600 * MS);
    assert_eq!(set.start.len(), 2);
    assert!(matches!(set.start[0], AnyStartStrategy::Vad(_)));
    assert!(matches!(set.start[1], AnyStartStrategy::Transcription(_)));
    assert_eq!(set.stop.len(), 1);
    assert!(set.stop[0].enable_user_speaking_frames());
    let set = UserTurnStrategies::external();
    assert!(!set.start[0].enable_interruptions());
    assert!(!set.stop[0].enable_user_speaking_frames());
    assert_eq!(set.stop[0].next_deadline(), None);
}

// -- External start --

#[test]
fn triggers_on_user_started_speaking() {
    let mut strategy = ExternalUserTurnStartStrategy::new();
    let actions = strategy.process_frame(&Frame::UserStartedSpeaking);
    assert_eq!(actions.len(), 1);
    assert!(matches!(
        &actions[0],
        TurnAction::UserTurnStarted(p) if !p.enable_interruptions && !p.enable_user_speaking_frames
    ));
}

#[test]
fn ignores_vad_started() {
    let mut strategy = ExternalUserTurnStartStrategy::new();
    assert!(strategy.process_frame(&vad_started()).is_empty());
}

// -- Minimum words --

#[test]
fn triggers_on_one_word_when_bot_not_speaking() {
    let mut strategy = MinWordsUserTurnStartStrategy::new(3);
    let actions = strategy.process_frame(&transcription("hello"));
    assert_eq!(actions.len(), 1);
}

#[test]
fn requires_min_words_when_bot_speaking() {
    let mut strategy = MinWordsUserTurnStartStrategy::new(3);
    strategy.process_frame(&Frame::BotStartedSpeaking);
    let actions = strategy.process_frame(&transcription("hello world"));
    assert!(actions.is_empty());
    let actions = strategy.process_frame(&transcription("hello world goodbye"));
    assert_eq!(actions.len(), 1);
}

#[test]
fn bot_stopped_resets_threshold() {
    let mut strategy = MinWordsUserTurnStartStrategy::new(3);
    strategy.process_frame(&Frame::BotStartedSpeaking);
    strategy.process_frame(&Frame::BotStoppedSpeaking);
    let actions = strategy.process_frame(&transcription("hi"));
    assert_eq!(actions.len(), 1);
}

#[test]
fn interim_triggers_when_enabled() {
    let mut strategy = MinWordsUserTurnStartStrategy::new(3);
    let actions = strategy.process_frame(&interim("hello"));
    assert_eq!(actions.len(), 1);
}

#[test]
fn interim_ignored_when_disabled() {
    let mut strategy = MinWordsUserTurnStartStrategy::with_options(3, false, true, true);
    let actions = strategy.process_frame(&interim("hello"));
    assert!(actions.is_empty());
}

#[test]
fn reset_clears_bot_speaking() {
    let mut strategy = MinWordsUserTurnStartStrategy::new(3);
    strategy.process_frame(&Frame::BotStartedSpeaking);
    assert!(strategy.bot_speaking());
    strategy.reset();
    assert!(!strategy.bot_speaking());
}

#[test]
fn whitespace_alone_is_no_word() {
    let mut strategy = MinWordsUserTurnStartStrategy::new(0);
    assert!(strategy.process_frame(&transcription("  \t\n")).is_empty());
    strategy.process_frame(&Frame::BotStartedSpeaking);
    assert_eq!(strategy.process_frame(&transcription("")).len(), 1);
}

// -- Transcription start --

#[test]
fn triggers_on_final_transcription() {
    let mut strategy = TranscriptionUserTurnStartStrategy::new();
    let actions = strategy.process_frame(&transcription("hello"));
    assert_eq!(actions.len(), 1);
    assert!(matches!(&actions[0], TurnAction::UserTurnStarted(_)));
}

#[test]
fn triggers_on_interim_when_enabled() {
    let mut strategy = TranscriptionUserTurnStartStrategy::new();
    let actions = strategy.process_frame(&interim("hel"));
    assert_eq!(actions.len(), 1);
}

#[test]
fn ignores_interim_when_disabled() {
    let mut strategy = TranscriptionUserTurnStartStrategy::with_options(true, true, false);
    let actions = strategy.process_frame(&interim("hel"));
    assert!(actions.is_empty());
}

#[test]
fn still_triggers_on_final_when_interim_disabled() {
    let mut strategy = TranscriptionUserTurnStartStrategy::with_options(true, true, false);
    let actions = strategy.process_frame(&transcription("hello"));
    assert_eq!(actions.len(), 1);
}

// -- Voice activity start --

#[test]
fn triggers_on_vad_started() {
    let mut strategy = VadUserTurnStartStrategy::new();
    let actions = strategy.process_frame(&vad_started());
    assert_eq!(actions.len(), 1);
    assert!(matches!(
        &actions[0],
        TurnAction::UserTurnStarted(p) if p.enable_interruptions && p.enable_user_speaking_frames
    ));
}

#[test]
fn ignores_other_frames() {
    let mut strategy = VadUserTurnStartStrategy::new();
    assert!(strategy.process_frame(&transcription("hello")).is_empty());
    assert!(strategy.process_frame(&interim("hel")).is_empty());
}

#[test]
fn custom_options() {
    let mut strategy = VadUserTurnStartStrategy::with_options(false, false);
    let actions = strategy.process_frame(&vad_started());
    assert!(matches!(
        &actions[0],
        TurnAction::UserTurnStarted(p) if !p.enable_interruptions && !p.enable_user_speaking_frames
    ));
}

// -- External stop --

fn step<T: StopStrategy>(strategy: &mut T, frame: &Frame, now: u64) -> Vec<TurnAction> {
    strategy.process_frame(frame, AnalyzerReply::none(), now)
}

#[test]
fn triggers_after_stop_speaking_with_text() {
    let mut strategy = ExternalUserTurnStopStrategy::new(100 * MS);
    step(&mut strategy, &Frame::UserStartedSpeaking, 0);
    step(&mut strategy, &transcription("hello"), 0);
    let actions = step(&mut strategy, &Frame::UserStoppedSpeaking, 0);
    assert_eq!(actions.len(), 1);
    assert!(matches!(&actions[0], TurnAction::UserTurnStopped(_)));
}

#[test]
fn external_no_trigger_without_text() {
    let mut strategy = ExternalUserTurnStopStrategy::new(100 * MS);
    step(&mut strategy, &Frame::UserStartedSpeaking, 0);
    let actions = step(&mut strategy, &Frame::UserStoppedSpeaking, 0);
    assert!(actions.is_empty());
}

#[test]
fn no_trigger_with_pending_interim() {
    let mut strategy = ExternalUserTurnStopStrategy::new(100 * MS);
    step(&mut strategy, &Frame::UserStartedSpeaking, 0);
    step(&mut strategy, &transcription("hello"), 0);
    step(&mut strategy, &interim("world"), 0);
    let actions = step(&mut strategy, &Frame::UserStoppedSpeaking, 0);
    assert!(actions.is_empty());
}

#[test]
fn aggregation_timer_triggers() {
    let mut strategy = ExternalUserTurnStopStrategy::new(100 * MS);
    step(&mut strategy, &transcription("hello"), 0);
    let actions = strategy.drain_pending_actions(200 * MS);
    assert_eq!(actions.len(), 1);
}

#[test]
fn timer_restarted_on_new_transcription() {
    let mut strategy = ExternalUserTurnStopStrategy::new(200 * MS);
    step(&mut strategy, &transcription("hello"), 0);
    step(&mut strategy, &transcription(" world"), 100 * MS);
    assert!(strategy.drain_pending_actions(250 * MS).is_empty());
    let actions = strategy.drain_pending_actions(350 * MS);
    assert_eq!(actions.len(), 1);
}

#[test]
fn external_reset_clears_state() {
    let mut strategy = ExternalUserTurnStopStrategy::new(100 * MS);
    step(&mut strategy, &transcription("hello"), 0);
    strategy.reset();
    assert!(strategy.drain_pending_actions(200 * MS).is_empty());
}

#[test]
fn default_external_timeout_is_half_a_second() {
    let mut strategy = ExternalUserTurnStopStrategy::default();
    step(&mut strategy, &transcription("hello"), 7);
    assert_eq!(strategy.next_deadline(), Some(500 * MS + 7));
}

#[test]
fn each_elapsed_timer_leaves_a_signal() {
    let mut strategy = ExternalUserTurnStopStrategy::new(100 * MS);
    step(&mut strategy, &transcription("hello"), 0);
    step(&mut strategy, &transcription("again"), 150 * MS);
    assert_eq!(strategy.drain_pending_actions(300 * MS).len(), 2);
    assert!(strategy.drain_pending_actions(900 * MS).is_empty());
}

// -- Speech timeout --

fn stt_metadata(latency: u64) -> Frame {
    Frame::STTMetadata { ttfs_p99_latency: latency }
}

#[test]
fn basic_timeout_flow() {
    let mut strategy = SpeechTimeoutUserTurnStopStrategy::new(100 * MS);
    step(&mut strategy, &vad_started(), 0);
    step(&mut strategy, &transcript("hello", false), 0);
    step(&mut strategy, &vad_stopped_after(200 * MS), 0);
    assert!(strategy.drain_pending_actions(0).is_empty());
    let actions = strategy.drain_pending_actions(200 * MS);
    assert_eq!(actions.len(), 1);
    assert!(matches!(&actions[0], TurnAction::UserTurnStopped(_)));
}

#[test]
fn cancel_on_re_speak() {
    let mut strategy = SpeechTimeoutUserTurnStopStrategy::new(200 * MS);
    step(&mut strategy, &vad_started(), 0);
    step(&mut strategy, &transcript("hello", false), 0);
    step(&mut strategy, &vad_stopped_after(200 * MS), 0);
    step(&mut strategy, &vad_started(), 50 * MS);
    assert!(strategy.drain_pending_actions(350 * MS).is_empty());
}

#[test]
fn no_text_no_trigger() {
    let mut strategy = SpeechTimeoutUserTurnStopStrategy::new(100 * MS);
    step(&mut strategy, &vad_started(), 0);
    step(&mut strategy, &vad_stopped_after(200 * MS), 0);
    assert!(strategy.drain_pending_actions(200 * MS).is_empty());
}

#[test]
fn stt_metadata_affects_timeout() {
    let mut strategy = SpeechTimeoutUserTurnStopStrategy::new(50 * MS);
    step(&mut strategy, &stt_metadata(500 * MS), 0);
    step(&mut strategy, &vad_started(), 0);
    step(&mut strategy, &transcript("hello", false), 0);
    step(&mut strategy, &vad_stopped_after(100 * MS), 0);
    assert_eq!(strategy.next_deadline(), Some(400 * MS));
    assert!(strategy.drain_pending_actions(100 * MS).is_empty());
    let actions = strategy.drain_pending_actions(500 * MS);
    assert_eq!(actions.len(), 1);
}

#[test]
fn finalized_transcript_shortens_timeout() {
    let mut strategy = SpeechTimeoutUserTurnStopStrategy::new(100 * MS);
    step(&mut strategy, &stt_metadata(1000 * MS), 0);
    step(&mut strategy, &vad_started(), 0);
    step(&mut strategy, &vad_stopped_after(200 * MS), 0);
    step(&mut strategy, &transcript("hello", true), 0);
    let actions = strategy.drain_pending_actions(200 * MS);
    assert_eq!(actions.len(), 1);
}

#[test]
fn speech_timeout_reset_clears_state() {
    let mut strategy = SpeechTimeoutUserTurnStopStrategy::new(100 * MS);
    step(&mut strategy, &vad_started(), 0);
    step(&mut strategy, &transcript("hello", false), 0);
    step(&mut strategy, &vad_stopped_after(200 * MS), 0);
    strategy.reset();
    assert!(strategy.drain_pending_actions(200 * MS).is_empty());
}

#[test]
fn fallback_transcription_without_vad() {
    let mut strategy = SpeechTimeoutUserTurnStopStrategy::new(100 * MS);
    step(&mut strategy, &transcript("hello", true), 0);
    let actions = strategy.drain_pending_actions(200 * MS);
    assert_eq!(actions.len(), 1);
}

#[test]
fn late_finalized_transcript_ends_the_turn_at_once() {
    let mut strategy = SpeechTimeoutUserTurnStopStrategy::with_options(100 * MS, false);
    step(&mut strategy, &stt_metadata(1000 * MS), 0);
    step(&mut strategy, &vad_started(), 0);
    step(&mut strategy, &vad_stopped_after(0), 10 * MS);
    let actions = step(&mut strategy, &transcript("hello", true), 110 * MS);
    assert!(matches!(
        &actions[..],
        [TurnAction::UserTurnStopped(p)] if !p.enable_user_speaking_frames
    ));
    assert_eq!(strategy.next_deadline(), None);
}

// -- Turn analyzer --

fn audio_frame() -> Frame {
    Frame::InputAudioRaw(AudioRawFrame {
        audio: Bytes::from(vec![0u8; 320]),
        sample_rate: 16000,
        num_channels: 1,
    })
}

fn start_frame() -> Frame {
    Frame::Start(StartFrame {
        audio_in_sample_rate: 16000,
        audio_out_sample_rate: 24000,
        allow_interruptions: true,
        enable_metrics: false,
        enable_usage_metrics: false,
        report_only_initial_ttfb: false,
    })
}

/// Answers calls as an analyzer that finds every turn complete, or none.
fn answer(calls: &[AnalyzerCall], should_complete: bool) -> AnalyzerReply {
    let state = if should_complete {
        EndOfTurnState::Complete
    } else {
        EndOfTurnState::Incomplete
    };
    let mut reply = AnalyzerReply::none();
    for call in calls {
        match call {
            AnalyzerCall::Params => {
                reply.params = Some(serde_json::from_str(r#"{"mock": true}"#).unwrap());
            }
            AnalyzerCall::AppendAudio { .. } => reply.appended = state,
            AnalyzerCall::AnalyzeEndOfTurn => reply.analyzed = state,
            _ => {}
        }
    }
    reply
}

fn analyzed(
    strategy: &mut TurnAnalyzerUserTurnStopStrategy,
    frame: &Frame,
    should_complete: bool,
) -> Vec<TurnAction> {
    let calls = strategy.analyzer_calls(frame);
    strategy.process_frame(frame, answer(&calls, should_complete), 0)
}

#[test]
fn broadcasts_speech_control_params_on_start() {
    let mut strategy = TurnAnalyzerUserTurnStopStrategy::new();
    let calls = strategy.analyzer_calls(&start_frame());
    assert_eq!(calls, vec![AnalyzerCall::SetSampleRate(16000), AnalyzerCall::Params]);
    let actions = strategy.process_frame(&start_frame(), answer(&calls, false), 0);
    assert_eq!(actions.len(), 1);
    assert!(matches!(
        &actions[0],
        TurnAction::BroadcastFrame(Frame::SpeechControlParams { turn_params: Some(_) })
    ));
}

#[test]
fn triggers_on_complete_with_text() {
    let mut strategy = TurnAnalyzerUserTurnStopStrategy::new();
    analyzed(&mut strategy, &vad_started(), true);
    analyzed(&mut strategy, &transcript("hello", false), true);
    analyzed(&mut strategy, &vad_stopped(), true);
    let actions = analyzed(&mut strategy, &transcript(" world", true), true);
    assert!(stops(&actions) > 0);
}

#[test]
fn turn_analyzer_no_trigger_without_text() {
    let mut strategy = TurnAnalyzerUserTurnStopStrategy::new();
    analyzed(&mut strategy, &vad_started(), true);
    let actions = analyzed(&mut strategy, &audio_frame(), true);
    assert_eq!(stops(&actions), 0);
}

#[test]
fn vad_stop_analyzes_turn() {
    let mut strategy = TurnAnalyzerUserTurnStopStrategy::new();
    analyzed(&mut strategy, &vad_started(), true);
    analyzed(&mut strategy, &transcript("hello", false), true);
    analyzed(&mut strategy, &vad_stopped(), true);
    assert!(strategy.turn_complete());
    let actions = analyzed(&mut strategy, &transcript(" world", true), true);
    assert!(stops(&actions) > 0);
}

#[test]
fn reset_clears_analyzer() {
    let mut strategy = TurnAnalyzerUserTurnStopStrategy::new();
    analyzed(&mut strategy, &vad_started(), true);
    analyzed(&mut strategy, &audio_frame(), true);
    analyzed(&mut strategy, &transcript("hello", true), true);
    strategy.reset();
    assert!(strategy.text().is_empty());
    assert!(!strategy.turn_complete());
    assert_eq!(strategy.analyzer_calls(&Frame::Wakeup), vec![AnalyzerCall::Clear]);
}

#[test]
fn incomplete_turn_goes_on() {
    let mut strategy = TurnAnalyzerUserTurnStopStrategy::with_options(false);
    analyzed(&mut strategy, &transcript("hello", false), false);
    analyzed(&mut strategy, &vad_started(), false);
    analyzed(&mut strategy, &vad_stopped(), false);
    assert!(!strategy.turn_complete());
    assert!(strategy.drain_pending_actions(1000 * MS).is_empty());
}

#[test]
fn analysis_metrics_go_downstream() {
    let mut strategy = TurnAnalyzerUserTurnStopStrategy::new();
    let mut reply = AnalyzerReply::none();
    reply.metrics = Some(MetricsData::Recorded { key: 7 });
    let actions = strategy.process_frame(&vad_stopped(), reply, 0);
    assert!(matches!(
        &actions[..],
        [TurnAction::PushFrame(Frame::Metrics(data), _)]
            if matches!(data[..], [MetricsData::Recorded { key: 7 }])
    ));
}

#[test]
fn controller_consults_the_analyzer() {
    let strategies = UserTurnStrategies {
        start: vec![AnyStartStrategy::Vad(VadUserTurnStartStrategy::new())],
        stop: vec![AnyStopStrategy::TurnAnalyzer(TurnAnalyzerUserTurnStopStrategy::new())],
    };
    let mut ctrl: Controller = UserTurnController::new(strategies, 5000 * MS);
    ctrl.setup(0);
    let mut all = Vec::new();
    for frame in [vad_started(), transcript("hi", true), vad_stopped(), transcript("hi", true)] {
        all.extend(ctrl.begin_frame(&frame, 0));
        let calls = ctrl.analyzer_calls(&frame);
        let replies = calls.iter().map(|c| answer(c, true)).collect();
        all.extend(ctrl.finish_frame(&frame, replies, 0));
    }
    assert_eq!(all.len(), 2);
    assert!(matches!(all[0], TurnAction::UserTurnStarted(_)));
    assert!(matches!(all[1], TurnAction::UserTurnStopped(_)));
}
