//! Turn ends predicted by a turn analyzer.
use vstd::prelude::*;
use vstd::string::*;

use crate::frames::{metrics_of, Direction, Frame, FrameView, MetricsData, MetricsOf};
use crate::turns::action::{
    actions_of, no_actions, nothing, push_action, TurnAction, TurnActionView,
};
use crate::turns::params::UserTurnStoppedParams;
use crate::turns::stop::speech_timeout::{beyond, longer};
use crate::turns::stop::{
    drain_signals, repeated, stopped, AnalyzerCall, AnalyzerReply, AnalyzerReplyView,
    EndOfTurnState, StopStrategy,
};
use crate::turns::timer::{Timer, TimerModel};

verus! {

/// The shortest wait for a transcript that comes without VAD stop: a tenth of a
/// second.
pub const FALLBACK_TIMEOUT: u64 = 100_000_000;

/// Stops a user turn using a turn analyzer.
///
/// The analyzer is fed the audio and predicts whether the user has finished
/// their turn. The strategy coordinates the prediction with voice activity
/// detection (VAD) and transcription timing. It does not hold the analyzer: it
/// says which calls are to be made on it, and is told what came back.
#[derive(Debug)]
pub struct TurnAnalyzerUserTurnStopStrategy {
    enable_user_speaking_frames: bool,
    stt_timeout: u64,
    stop_secs: u64,
    text: String,
    turn_complete: bool,
    vad_user_speaking: bool,
    vad_stopped: bool,
    transcript_finalized: bool,
    /// Calls on the analyzer that no frame waits for.
    calls: Vec<AnalyzerCall>,
    timer: Timer,
}

/// The state of a [`TurnAnalyzerUserTurnStopStrategy`].
pub struct TurnAnalyzerModel {
    pub enable_user_speaking_frames: bool,
    pub stt_timeout: u64,
    pub stop_secs: u64,
    pub text: Seq<char>,
    pub turn_complete: bool,
    pub vad_user_speaking: bool,
    pub vad_stopped: bool,
    pub transcript_finalized: bool,
    pub calls: Seq<AnalyzerCall>,
    pub timer: TimerModel,
}

/// The measurements of an analysis, sent downstream.
pub open spec fn reported(metrics: Option<MetricsOf<Seq<char>>>) -> Seq<TurnActionView> {
    match metrics {
        Some(m) => seq![
            TurnActionView::PushFrame(FrameView::Metrics(seq![m]), Direction::Downstream),
        ],
        None => nothing(),
    }
}

impl TurnAnalyzerModel {
    /// The state of a new strategy.
    pub open spec fn fresh(enable_user_speaking_frames: bool) -> TurnAnalyzerModel {
        TurnAnalyzerModel {
            enable_user_speaking_frames,
            stt_timeout: 0,
            stop_secs: 0,
            text: Seq::empty(),
            turn_complete: false,
            vad_user_speaking: false,
            vad_stopped: false,
            transcript_finalized: false,
            calls: Seq::empty(),
            timer: TimerModel::idle(),
        }
    }

    /// Whether the turn can end: there is text, the analyzer found the turn
    /// complete, and the user is not speaking.
    pub open spec fn ready(self) -> bool {
        self.text.len() > 0 && self.turn_complete && !self.vad_user_speaking
    }

    /// The actions of a check whether the turn can end.
    pub open spec fn triggered(self) -> Seq<TurnActionView> {
        if self.ready() {
            seq![stopped(self.enable_user_speaking_frames)]
        } else {
            nothing()
        }
    }

    /// The state with the timer seen at `now`.
    pub open spec fn polled(self, now: u64) -> TurnAnalyzerModel {
        TurnAnalyzerModel { timer: self.timer.polled(now), ..self }
    }

    /// The calls that a frame needs.
    pub open spec fn calls_for(self, frame: FrameView) -> Seq<AnalyzerCall> {
        match frame {
            FrameView::Start(start) => seq![
                AnalyzerCall::SetSampleRate(start.audio_in_sample_rate),
                AnalyzerCall::Params,
            ],
            FrameView::InputAudioRaw(_) => seq![
                AnalyzerCall::AppendAudio { is_speech: self.vad_user_speaking },
            ],
            FrameView::VADUserStartedSpeaking { start_secs } => seq![
                AnalyzerCall::UpdateVadStartSecs(start_secs),
            ],
            FrameView::VADUserStoppedSpeaking { stop_secs } => seq![
                AnalyzerCall::AnalyzeEndOfTurn,
            ],
            _ => Seq::empty(),
        }
    }
}

/// Sends the measurements of an analysis downstream, if there are any.
fn report(actions: &mut Vec<TurnAction>, metrics: Option<MetricsData>)
    ensures
        actions_of(final(actions)@) == actions_of(old(actions)@) + reported(
            match metrics {
                Some(m) => Some(m@),
                None => None,
            },
        ),
{
    let ghost before = actions_of(actions@);
    match metrics {
        Some(m) => {
            let mut data: Vec<MetricsData> = Vec::new();
            data.push(m);
            proof {
                assert(metrics_of(data@) =~= seq![m@]);
            }
            push_action(
                actions,
                TurnAction::PushFrame(Frame::Metrics(data), Direction::Downstream),
            );
            proof {
                assert(actions_of(actions@) =~= before + reported(Some(m@)));
            }
        },
        None => {
            proof {
                assert(before + nothing() =~= before);
            }
        },
    }
}

impl TurnAnalyzerUserTurnStopStrategy {
    pub fn new() -> (r: Self)
        ensures
            r.model() == TurnAnalyzerModel::fresh(true),
    {
        Self {
            enable_user_speaking_frames: true,
            stt_timeout: 0,
            stop_secs: 0,
            text: String::new(),
            turn_complete: false,
            vad_user_speaking: false,
            vad_stopped: false,
            transcript_finalized: false,
            calls: Vec::new(),
            timer: Timer::new(),
        }
    }

    pub fn with_options(enable_user_speaking_frames: bool) -> (r: Self)
        ensures
            r.model() == TurnAnalyzerModel::fresh(enable_user_speaking_frames),
    {
        let mut s = Self::new();
        s.enable_user_speaking_frames = enable_user_speaking_frames;
        s
    }

    /// The latest transcription.
    pub fn text(&self) -> (r: &str)
        ensures
            r@ == self.model().text,
    {
        self.text.as_str()
    }

    /// Whether the analyzer found the turn complete.
    pub fn turn_complete(&self) -> (r: bool)
        ensures
            r == self.model().turn_complete,
    {
        self.turn_complete
    }

    /// Whether the end of turn is to be analyzed once audio was appended.
    pub fn analyzes_after(state: EndOfTurnState) -> (r: bool)
        ensures
            r == (state == EndOfTurnState::Complete),
    {
        state == EndOfTurnState::Complete
    }

    fn can_trigger(&self) -> (r: bool)
        ensures
            r == self.model().ready(),
    {
        !self.text.as_str().is_empty() && self.turn_complete && !self.vad_user_speaking
    }

    fn maybe_trigger(&self, actions: &mut Vec<TurnAction>)
        ensures
            actions_of(final(actions)@) == actions_of(old(actions)@) + self.model().triggered(),
    {
        if self.can_trigger() {
            push_action(
                actions,
                TurnAction::UserTurnStopped(
                    UserTurnStoppedParams {
                        enable_user_speaking_frames: self.enable_user_speaking_frames,
                    },
                ),
            );
        }
        proof {
            assert(actions_of(actions@) =~= actions_of(old(actions)@) + self.model().triggered());
        }
    }
}

impl StopStrategy for TurnAnalyzerUserTurnStopStrategy {
    type Model = TurnAnalyzerModel;

    closed spec fn model(&self) -> TurnAnalyzerModel {
        TurnAnalyzerModel {
            enable_user_speaking_frames: self.enable_user_speaking_frames,
            stt_timeout: self.stt_timeout,
            stop_secs: self.stop_secs,
            text: self.text@,
            turn_complete: self.turn_complete,
            vad_user_speaking: self.vad_user_speaking,
            vad_stopped: self.vad_stopped,
            transcript_finalized: self.transcript_finalized,
            calls: self.calls@,
            timer: self.timer@,
        }
    }

    open spec fn asked(pre: TurnAnalyzerModel, frame: FrameView) -> (
        TurnAnalyzerModel,
        Seq<AnalyzerCall>,
    ) {
        (
            TurnAnalyzerModel { calls: Seq::empty(), ..pre },
            pre.calls + pre.calls_for(frame),
        )
    }

    open spec fn processed(
        pre: TurnAnalyzerModel,
        frame: FrameView,
        reply: AnalyzerReplyView,
        now: u64,
    ) -> (TurnAnalyzerModel, Seq<TurnActionView>) {
        let pre = pre.polled(now);
        match frame {
            // Tell the transport about the analyzer's configuration.
            FrameView::Start(start) => (
                pre,
                seq![
                    TurnActionView::BroadcastFrame(
                        FrameView::SpeechControlParams { turn_params: reply.params },
                    ),
                ],
            ),
            FrameView::STTMetadata { ttfs_p99_latency } => (
                TurnAnalyzerModel { stt_timeout: ttfs_p99_latency, ..pre },
                nothing(),
            ),
            FrameView::InputAudioRaw(_) => if reply.appended == EndOfTurnState::Complete {
                let post = TurnAnalyzerModel { turn_complete: true, ..pre };
                (post, reported(reply.metrics) + post.triggered())
            } else {
                (pre, nothing())
            },
            FrameView::VADUserStartedSpeaking { start_secs } => (
                TurnAnalyzerModel {
                    turn_complete: false,
                    vad_user_speaking: true,
                    vad_stopped: false,
                    transcript_finalized: false,
                    timer: pre.timer.cancelled(),
                    ..pre
                },
                nothing(),
            ),
            FrameView::VADUserStoppedSpeaking { stop_secs } => (
                TurnAnalyzerModel {
                    vad_user_speaking: false,
                    stop_secs,
                    vad_stopped: true,
                    turn_complete: reply.analyzed == EndOfTurnState::Complete,
                    timer: pre.timer.started(now, beyond(pre.stt_timeout, stop_secs)),
                    ..pre
                },
                reported(reply.metrics),
            ),
            FrameView::Transcription(t) => {
                // Only the latest transcription counts.
                let post = TurnAnalyzerModel {
                    text: t.text,
                    transcript_finalized: pre.transcript_finalized || t.finalized,
                    timer: if pre.vad_stopped {
                        pre.timer
                    } else {
                        pre.timer.started(now, longer(pre.stt_timeout, FALLBACK_TIMEOUT))
                    },
                    ..pre
                };
                (
                    post,
                    if t.finalized {
                        post.triggered()
                    } else {
                        nothing()
                    },
                )
            },
            _ => (pre, nothing()),
        }
    }

    open spec fn drained(pre: TurnAnalyzerModel, now: u64) -> (
        TurnAnalyzerModel,
        Seq<TurnActionView>,
    ) {
        let pre = pre.polled(now);
        (
            TurnAnalyzerModel { timer: pre.timer.drained(), ..pre },
            if pre.ready() {
                repeated(stopped(pre.enable_user_speaking_frames), pre.timer.signals)
            } else {
                nothing()
            },
        )
    }

    open spec fn cleared(pre: TurnAnalyzerModel) -> TurnAnalyzerModel {
        TurnAnalyzerModel {
            stt_timeout: pre.stt_timeout,
            calls: pre.calls.push(AnalyzerCall::Clear),
            ..TurnAnalyzerModel::fresh(pre.enable_user_speaking_frames)
        }
    }

    open spec fn prepared(pre: TurnAnalyzerModel) -> TurnAnalyzerModel {
        pre
    }

    open spec fn closed(pre: TurnAnalyzerModel) -> TurnAnalyzerModel {
        TurnAnalyzerModel {
            timer: pre.timer.cancelled(),
            calls: pre.calls.push(AnalyzerCall::Cleanup),
            ..pre
        }
    }

    open spec fn speaks(pre: TurnAnalyzerModel) -> bool {
        pre.enable_user_speaking_frames
    }

    open spec fn wakes(pre: TurnAnalyzerModel) -> Option<u64> {
        pre.timer.deadline
    }

    fn analyzer_calls(&mut self, frame: &Frame) -> (r: Vec<AnalyzerCall>) {
        let mut out: Vec<AnalyzerCall> = Vec::new();
        out.append(&mut self.calls);
        match frame {
            Frame::Start(start) => {
                out.push(AnalyzerCall::SetSampleRate(start.audio_in_sample_rate));
                out.push(AnalyzerCall::Params);
            },
            Frame::InputAudioRaw(_) => {
                out.push(AnalyzerCall::AppendAudio { is_speech: self.vad_user_speaking });
            },
            Frame::VADUserStartedSpeaking { start_secs } => {
                out.push(AnalyzerCall::UpdateVadStartSecs(*start_secs));
            },
            Frame::VADUserStoppedSpeaking { .. } => {
                out.push(AnalyzerCall::AnalyzeEndOfTurn);
            },
            _ => {},
        }
        proof {
            assert(out@ =~= old(self).calls@ + old(self).model().calls_for(frame@));
            assert(self.calls@ =~= Seq::empty());
        }
        out
    }

    fn process_frame(&mut self, frame: &Frame, reply: AnalyzerReply, now: u64) -> (r: Vec<
        TurnAction,
    >) {
        self.timer.poll(now);
        let mut actions = no_actions();
        match frame {
            Frame::Start(_) => {
                push_action(
                    &mut actions,
                    TurnAction::BroadcastFrame(
                        Frame::SpeechControlParams { turn_params: reply.params },
                    ),
                );
            },
            Frame::STTMetadata { ttfs_p99_latency } => {
                self.stt_timeout = *ttfs_p99_latency;
            },
            Frame::InputAudioRaw(_) => {
                if Self::analyzes_after(reply.appended) {
                    self.turn_complete = true;
                    report(&mut actions, reply.metrics);
                    self.maybe_trigger(&mut actions);
                }
            },
            Frame::VADUserStartedSpeaking { .. } => {
                self.turn_complete = false;
                self.vad_user_speaking = true;
                self.vad_stopped = false;
                self.transcript_finalized = false;
                self.timer.cancel();
            },
            Frame::VADUserStoppedSpeaking { stop_secs } => {
                self.vad_user_speaking = false;
                self.stop_secs = *stop_secs;
                self.vad_stopped = true;
                self.turn_complete = reply.analyzed == EndOfTurnState::Complete;
                report(&mut actions, reply.metrics);
                let timeout: u64 = if self.stt_timeout >= self.stop_secs {
                    self.stt_timeout - self.stop_secs
                } else {
                    0
                };
                self.timer.start(now, timeout);
            },
            Frame::Transcription(t) => {
                self.text = t.text.clone();
                if t.finalized {
                    self.transcript_finalized = true;
                    self.maybe_trigger(&mut actions);
                }
                // A transcript without VAD stop.
                if !self.vad_stopped {
                    let timeout: u64 = if self.stt_timeout >= FALLBACK_TIMEOUT {
                        self.stt_timeout
                    } else {
                        FALLBACK_TIMEOUT
                    };
                    self.timer.start(now, timeout);
                }
            },
            _ => {},
        }
        proof {
            assert(actions_of(actions@) =~= Self::processed(
                old(self).model(),
                frame@,
                reply@,
                now,
            ).1);
        }
        actions
    }

    fn drain_pending_actions(&mut self, now: u64) -> (r: Vec<TurnAction>) {
        self.timer.poll(now);
        let ready = self.can_trigger();
        drain_signals(&mut self.timer, ready, self.enable_user_speaking_frames)
    }

    fn reset(&mut self) {
        self.timer.cancel();
        self.timer.drain();
        self.calls.push(AnalyzerCall::Clear);
        self.text = String::new();
        self.turn_complete = false;
        self.vad_user_speaking = false;
        self.vad_stopped = false;
        self.transcript_finalized = false;
        self.stop_secs = 0;
    }

    fn setup(&mut self) {
    }

    fn cleanup(&mut self) {
        self.timer.cancel();
        self.calls.push(AnalyzerCall::Cleanup);
    }

    fn enable_user_speaking_frames(&self) -> (r: bool) {
        self.enable_user_speaking_frames
    }

    fn next_deadline(&self) -> (r: Option<u64>) {
        self.timer.deadline()
    }
}

} // verus!
