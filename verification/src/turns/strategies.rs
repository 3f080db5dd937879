//! Sets of strategies.
use vstd::prelude::*;

use crate::frames::{Frame, FrameView};
use crate::turns::action::{TurnAction, TurnActionView};
use crate::turns::start::external::ExternalUserTurnStartStrategy;
use crate::turns::start::min_words::{MinWordsStartModel, MinWordsUserTurnStartStrategy};
use crate::turns::start::transcription::{
    TranscriptionStartModel, TranscriptionUserTurnStartStrategy,
};
use crate::turns::start::vad::{VadStartModel, VadUserTurnStartStrategy};
use crate::turns::start::StartStrategy;
use crate::turns::stop::external::{
    ExternalStopModel, ExternalUserTurnStopStrategy, DEFAULT_TIMEOUT,
};
use crate::turns::stop::speech_timeout::{SpeechTimeoutModel, SpeechTimeoutUserTurnStopStrategy};
use crate::turns::stop::turn_analyzer::{TurnAnalyzerModel, TurnAnalyzerUserTurnStopStrategy};
use crate::turns::stop::{AnalyzerCall, AnalyzerReply, AnalyzerReplyView, StopStrategy};

verus! {

/// Configuration holding the start and stop strategies for turn detection.
#[derive(Debug)]
pub struct UserTurnStrategies<S: StartStrategy, T: StopStrategy> {
    pub start: Vec<S>,
    pub stop: Vec<T>,
}

/// Any of the start strategies of this crate.
#[derive(Debug)]
pub enum AnyStartStrategy {
    External(ExternalUserTurnStartStrategy),
    MinWords(MinWordsUserTurnStartStrategy),
    Transcription(TranscriptionUserTurnStartStrategy),
    Vad(VadUserTurnStartStrategy),
}

/// The state of an [`AnyStartStrategy`].
pub enum AnyStartModel {
    External(()),
    MinWords(MinWordsStartModel),
    Transcription(TranscriptionStartModel),
    Vad(VadStartModel),
}

impl StartStrategy for AnyStartStrategy {
    type Model = AnyStartModel;

    open spec fn model(&self) -> AnyStartModel {
        match self {
            AnyStartStrategy::External(s) => AnyStartModel::External(s.model()),
            AnyStartStrategy::MinWords(s) => AnyStartModel::MinWords(s.model()),
            AnyStartStrategy::Transcription(s) => AnyStartModel::Transcription(s.model()),
            AnyStartStrategy::Vad(s) => AnyStartModel::Vad(s.model()),
        }
    }

    open spec fn processed(pre: AnyStartModel, frame: FrameView) -> (AnyStartModel, Seq<TurnActionView>) {
        match pre {
            AnyStartModel::External(m) => {
                let (post, out) = ExternalUserTurnStartStrategy::processed(m, frame);
                (AnyStartModel::External(post), out)
            },
            AnyStartModel::MinWords(m) => {
                let (post, out) = MinWordsUserTurnStartStrategy::processed(m, frame);
                (AnyStartModel::MinWords(post), out)
            },
            AnyStartModel::Transcription(m) => {
                let (post, out) = TranscriptionUserTurnStartStrategy::processed(m, frame);
                (AnyStartModel::Transcription(post), out)
            },
            AnyStartModel::Vad(m) => {
                let (post, out) = VadUserTurnStartStrategy::processed(m, frame);
                (AnyStartModel::Vad(post), out)
            },
        }
    }

    open spec fn cleared(pre: AnyStartModel) -> AnyStartModel {
        match pre {
            AnyStartModel::External(m) => AnyStartModel::External(ExternalUserTurnStartStrategy::cleared(m)),
            AnyStartModel::MinWords(m) => AnyStartModel::MinWords(MinWordsUserTurnStartStrategy::cleared(m)),
            AnyStartModel::Transcription(m) => AnyStartModel::Transcription(TranscriptionUserTurnStartStrategy::cleared(m)),
            AnyStartModel::Vad(m) => AnyStartModel::Vad(VadUserTurnStartStrategy::cleared(m)),
        }
    }

    open spec fn prepared(pre: AnyStartModel) -> AnyStartModel {
        match pre {
            AnyStartModel::External(m) => AnyStartModel::External(ExternalUserTurnStartStrategy::prepared(m)),
            AnyStartModel::MinWords(m) => AnyStartModel::MinWords(MinWordsUserTurnStartStrategy::prepared(m)),
            AnyStartModel::Transcription(m) => AnyStartModel::Transcription(TranscriptionUserTurnStartStrategy::prepared(m)),
            AnyStartModel::Vad(m) => AnyStartModel::Vad(VadUserTurnStartStrategy::prepared(m)),
        }
    }

    open spec fn closed(pre: AnyStartModel) -> AnyStartModel {
        match pre {
            AnyStartModel::External(m) => AnyStartModel::External(ExternalUserTurnStartStrategy::closed(m)),
            AnyStartModel::MinWords(m) => AnyStartModel::MinWords(MinWordsUserTurnStartStrategy::closed(m)),
            AnyStartModel::Transcription(m) => AnyStartModel::Transcription(TranscriptionUserTurnStartStrategy::closed(m)),
            AnyStartModel::Vad(m) => AnyStartModel::Vad(VadUserTurnStartStrategy::closed(m)),
        }
    }

    open spec fn interrupts(pre: AnyStartModel) -> bool {
        match pre {
            AnyStartModel::External(m) => ExternalUserTurnStartStrategy::interrupts(m),
            AnyStartModel::MinWords(m) => MinWordsUserTurnStartStrategy::interrupts(m),
            AnyStartModel::Transcription(m) => TranscriptionUserTurnStartStrategy::interrupts(m),
            AnyStartModel::Vad(m) => VadUserTurnStartStrategy::interrupts(m),
        }
    }

    open spec fn speaks(pre: AnyStartModel) -> bool {
        match pre {
            AnyStartModel::External(m) => ExternalUserTurnStartStrategy::speaks(m),
            AnyStartModel::MinWords(m) => MinWordsUserTurnStartStrategy::speaks(m),
            AnyStartModel::Transcription(m) => TranscriptionUserTurnStartStrategy::speaks(m),
            AnyStartModel::Vad(m) => VadUserTurnStartStrategy::speaks(m),
        }
    }

    fn process_frame(&mut self, frame: &Frame) -> (r: Vec<TurnAction>) {
        match self {
            AnyStartStrategy::External(s) => s.process_frame(frame),
            AnyStartStrategy::MinWords(s) => s.process_frame(frame),
            AnyStartStrategy::Transcription(s) => s.process_frame(frame),
            AnyStartStrategy::Vad(s) => s.process_frame(frame),
        }
    }

    fn reset(&mut self) {
        match self {
            AnyStartStrategy::External(s) => s.reset(),
            AnyStartStrategy::MinWords(s) => s.reset(),
            AnyStartStrategy::Transcription(s) => s.reset(),
            AnyStartStrategy::Vad(s) => s.reset(),
        }
    }

    fn setup(&mut self) {
        match self {
            AnyStartStrategy::External(s) => s.setup(),
            AnyStartStrategy::MinWords(s) => s.setup(),
            AnyStartStrategy::Transcription(s) => s.setup(),
            AnyStartStrategy::Vad(s) => s.setup(),
        }
    }

    fn cleanup(&mut self) {
        match self {
            AnyStartStrategy::External(s) => s.cleanup(),
            AnyStartStrategy::MinWords(s) => s.cleanup(),
            AnyStartStrategy::Transcription(s) => s.cleanup(),
            AnyStartStrategy::Vad(s) => s.cleanup(),
        }
    }

    fn enable_interruptions(&self) -> (r: bool) {
        match self {
            AnyStartStrategy::External(s) => s.enable_interruptions(),
            AnyStartStrategy::MinWords(s) => s.enable_interruptions(),
            AnyStartStrategy::Transcription(s) => s.enable_interruptions(),
            AnyStartStrategy::Vad(s) => s.enable_interruptions(),
        }
    }

    fn enable_user_speaking_frames(&self) -> (r: bool) {
        match self {
            AnyStartStrategy::External(s) => s.enable_user_speaking_frames(),
            AnyStartStrategy::MinWords(s) => s.enable_user_speaking_frames(),
            AnyStartStrategy::Transcription(s) => s.enable_user_speaking_frames(),
            AnyStartStrategy::Vad(s) => s.enable_user_speaking_frames(),
        }
    }
}

/// Any of the stop strategies of this crate.
#[derive(Debug)]
pub enum AnyStopStrategy {
    External(ExternalUserTurnStopStrategy),
    SpeechTimeout(SpeechTimeoutUserTurnStopStrategy),
    TurnAnalyzer(TurnAnalyzerUserTurnStopStrategy),
}

/// The state of an [`AnyStopStrategy`].
pub enum AnyStopModel {
    External(ExternalStopModel),
    SpeechTimeout(SpeechTimeoutModel),
    TurnAnalyzer(TurnAnalyzerModel),
}

impl StopStrategy for AnyStopStrategy {
    type Model = AnyStopModel;

    open spec fn model(&self) -> AnyStopModel {
        match self {
            AnyStopStrategy::External(s) => AnyStopModel::External(s.model()),
            AnyStopStrategy::SpeechTimeout(s) => AnyStopModel::SpeechTimeout(s.model()),
            AnyStopStrategy::TurnAnalyzer(s) => AnyStopModel::TurnAnalyzer(s.model()),
        }
    }

    open spec fn asked(pre: AnyStopModel, frame: FrameView) -> (AnyStopModel, Seq<AnalyzerCall>) {
        match pre {
            AnyStopModel::External(m) => {
                let (post, out) = ExternalUserTurnStopStrategy::asked(m, frame);
                (AnyStopModel::External(post), out)
            },
            AnyStopModel::SpeechTimeout(m) => {
                let (post, out) = SpeechTimeoutUserTurnStopStrategy::asked(m, frame);
                (AnyStopModel::SpeechTimeout(post), out)
            },
            AnyStopModel::TurnAnalyzer(m) => {
                let (post, out) = TurnAnalyzerUserTurnStopStrategy::asked(m, frame);
                (AnyStopModel::TurnAnalyzer(post), out)
            },
        }
    }

    open spec fn processed(pre: AnyStopModel, frame: FrameView, reply: AnalyzerReplyView, now: u64) -> (AnyStopModel, Seq<TurnActionView>) {
        match pre {
            AnyStopModel::External(m) => {
                let (post, out) = ExternalUserTurnStopStrategy::processed(m, frame, reply, now);
                (AnyStopModel::External(post), out)
            },
            AnyStopModel::SpeechTimeout(m) => {
                let (post, out) = SpeechTimeoutUserTurnStopStrategy::processed(m, frame, reply, now);
                (AnyStopModel::SpeechTimeout(post), out)
            },
            AnyStopModel::TurnAnalyzer(m) => {
                let (post, out) = TurnAnalyzerUserTurnStopStrategy::processed(m, frame, reply, now);
                (AnyStopModel::TurnAnalyzer(post), out)
            },
        }
    }

    open spec fn drained(pre: AnyStopModel, now: u64) -> (AnyStopModel, Seq<TurnActionView>) {
        match pre {
            AnyStopModel::External(m) => {
                let (post, out) = ExternalUserTurnStopStrategy::drained(m, now);
                (AnyStopModel::External(post), out)
            },
            AnyStopModel::SpeechTimeout(m) => {
                let (post, out) = SpeechTimeoutUserTurnStopStrategy::drained(m, now);
                (AnyStopModel::SpeechTimeout(post), out)
            },
            AnyStopModel::TurnAnalyzer(m) => {
                let (post, out) = TurnAnalyzerUserTurnStopStrategy::drained(m, now);
                (AnyStopModel::TurnAnalyzer(post), out)
            },
        }
    }

    open spec fn cleared(pre: AnyStopModel) -> AnyStopModel {
        match pre {
            AnyStopModel::External(m) => AnyStopModel::External(ExternalUserTurnStopStrategy::cleared(m)),
            AnyStopModel::SpeechTimeout(m) => AnyStopModel::SpeechTimeout(SpeechTimeoutUserTurnStopStrategy::cleared(m)),
            AnyStopModel::TurnAnalyzer(m) => AnyStopModel::TurnAnalyzer(TurnAnalyzerUserTurnStopStrategy::cleared(m)),
        }
    }

    open spec fn prepared(pre: AnyStopModel) -> AnyStopModel {
        match pre {
            AnyStopModel::External(m) => AnyStopModel::External(ExternalUserTurnStopStrategy::prepared(m)),
            AnyStopModel::SpeechTimeout(m) => AnyStopModel::SpeechTimeout(SpeechTimeoutUserTurnStopStrategy::prepared(m)),
            AnyStopModel::TurnAnalyzer(m) => AnyStopModel::TurnAnalyzer(TurnAnalyzerUserTurnStopStrategy::prepared(m)),
        }
    }

    open spec fn closed(pre: AnyStopModel) -> AnyStopModel {
        match pre {
            AnyStopModel::External(m) => AnyStopModel::External(ExternalUserTurnStopStrategy::closed(m)),
            AnyStopModel::SpeechTimeout(m) => AnyStopModel::SpeechTimeout(SpeechTimeoutUserTurnStopStrategy::closed(m)),
            AnyStopModel::TurnAnalyzer(m) => AnyStopModel::TurnAnalyzer(TurnAnalyzerUserTurnStopStrategy::closed(m)),
        }
    }

    open spec fn speaks(pre: AnyStopModel) -> bool {
        match pre {
            AnyStopModel::External(m) => ExternalUserTurnStopStrategy::speaks(m),
            AnyStopModel::SpeechTimeout(m) => SpeechTimeoutUserTurnStopStrategy::speaks(m),
            AnyStopModel::TurnAnalyzer(m) => TurnAnalyzerUserTurnStopStrategy::speaks(m),
        }
    }

    open spec fn wakes(pre: AnyStopModel) -> Option<u64> {
        match pre {
            AnyStopModel::External(m) => ExternalUserTurnStopStrategy::wakes(m),
            AnyStopModel::SpeechTimeout(m) => SpeechTimeoutUserTurnStopStrategy::wakes(m),
            AnyStopModel::TurnAnalyzer(m) => TurnAnalyzerUserTurnStopStrategy::wakes(m),
        }
    }

    fn analyzer_calls(&mut self, frame: &Frame) -> (r: Vec<AnalyzerCall>) {
        match self {
            AnyStopStrategy::External(s) => s.analyzer_calls(frame),
            AnyStopStrategy::SpeechTimeout(s) => s.analyzer_calls(frame),
            AnyStopStrategy::TurnAnalyzer(s) => s.analyzer_calls(frame),
        }
    }

    fn process_frame(&mut self, frame: &Frame, reply: AnalyzerReply, now: u64) -> (r: Vec<TurnAction>) {
        match self {
            AnyStopStrategy::External(s) => s.process_frame(frame, reply, now),
            AnyStopStrategy::SpeechTimeout(s) => s.process_frame(frame, reply, now),
            AnyStopStrategy::TurnAnalyzer(s) => s.process_frame(frame, reply, now),
        }
    }

    fn drain_pending_actions(&mut self, now: u64) -> (r: Vec<TurnAction>) {
        match self {
            AnyStopStrategy::External(s) => s.drain_pending_actions(now),
            AnyStopStrategy::SpeechTimeout(s) => s.drain_pending_actions(now),
            AnyStopStrategy::TurnAnalyzer(s) => s.drain_pending_actions(now),
        }
    }

    fn reset(&mut self) {
        match self {
            AnyStopStrategy::External(s) => s.reset(),
            AnyStopStrategy::SpeechTimeout(s) => s.reset(),
            AnyStopStrategy::TurnAnalyzer(s) => s.reset(),
        }
    }

    fn setup(&mut self) {
        match self {
            AnyStopStrategy::External(s) => s.setup(),
            AnyStopStrategy::SpeechTimeout(s) => s.setup(),
            AnyStopStrategy::TurnAnalyzer(s) => s.setup(),
        }
    }

    fn cleanup(&mut self) {
        match self {
            AnyStopStrategy::External(s) => s.cleanup(),
            AnyStopStrategy::SpeechTimeout(s) => s.cleanup(),
            AnyStopStrategy::TurnAnalyzer(s) => s.cleanup(),
        }
    }

    fn enable_user_speaking_frames(&self) -> (r: bool) {
        match self {
            AnyStopStrategy::External(s) => s.enable_user_speaking_frames(),
            AnyStopStrategy::SpeechTimeout(s) => s.enable_user_speaking_frames(),
            AnyStopStrategy::TurnAnalyzer(s) => s.enable_user_speaking_frames(),
        }
    }

    fn next_deadline(&self) -> (r: Option<u64>) {
        match self {
            AnyStopStrategy::External(s) => s.next_deadline(),
            AnyStopStrategy::SpeechTimeout(s) => s.next_deadline(),
            AnyStopStrategy::TurnAnalyzer(s) => s.next_deadline(),
        }
    }
}

impl UserTurnStrategies<AnyStartStrategy, AnyStopStrategy> {
    /// Creates strategies for voice activity and transcription start detection
    /// with a speech-timeout stop strategy. This is a common default when no
    /// turn analyzer is available.
    pub fn vad_with_speech_timeout(user_speech_timeout: u64) -> (r: Self)
        ensures
            r.start@.len() == 2,
            r.start@[0].model() == AnyStartModel::Vad(
                VadStartModel { enable_interruptions: true, enable_user_speaking_frames: true },
            ),
            r.start@[1].model() == AnyStartModel::Transcription(
                TranscriptionStartModel {
                    enable_interruptions: true,
                    enable_user_speaking_frames: true,
                    use_interim: true,
                },
            ),
            r.stop@.len() == 1,
            r.stop@[0].model() == AnyStopModel::SpeechTimeout(
                SpeechTimeoutModel::fresh(user_speech_timeout, true),
            ),
    {
        let mut start: Vec<AnyStartStrategy> = Vec::new();
        start.push(AnyStartStrategy::Vad(VadUserTurnStartStrategy::new()));
        start.push(AnyStartStrategy::Transcription(TranscriptionUserTurnStartStrategy::new()));
        let mut stop: Vec<AnyStopStrategy> = Vec::new();
        stop.push(
            AnyStopStrategy::SpeechTimeout(
                SpeechTimeoutUserTurnStopStrategy::new(user_speech_timeout),
            ),
        );
        UserTurnStrategies { start, stop }
    }

    /// Creates strategies for turn detection by an external service.
    pub fn external() -> (r: Self)
        ensures
            r.start@.len() == 1,
            r.start@[0].model() == AnyStartModel::External(()),
            r.stop@.len() == 1,
            r.stop@[0].model() == AnyStopModel::External(
                ExternalStopModel::fresh(DEFAULT_TIMEOUT),
            ),
    {
        let mut start: Vec<AnyStartStrategy> = Vec::new();
        start.push(AnyStartStrategy::External(ExternalUserTurnStartStrategy::new()));
        let mut stop: Vec<AnyStopStrategy> = Vec::new();
        stop.push(AnyStopStrategy::External(ExternalUserTurnStopStrategy::default()));
        UserTurnStrategies { start, stop }
    }
}

} // verus!
