//! Turn ends after a silence.
use vstd::prelude::*;
use vstd::string::*;

use crate::frames::{Frame, FrameView};
use crate::turns::action::{no_actions, nothing, one_action, TurnAction, TurnActionView};
use crate::turns::params::UserTurnStoppedParams;
use crate::turns::stop::{
    drain_signals, repeated, stopped, AnalyzerCall, AnalyzerReply, AnalyzerReplyView, StopStrategy,
};
use crate::turns::timer::{Timer, TimerModel};

verus! {

/// Stops a user turn based on a timeout after voice activity detection (VAD)
/// hears silence.
///
/// Coordinates three timing signals:
/// 1. **VAD stop**: the user paused speaking
/// 2. **STT latency**: the expected transcription delay (99th percentile)
/// 3. **User speech timeout**: grace period for the user to continue
///
/// The effective wait after VAD stop is:
/// - If the transcript is finalized: `user_speech_timeout`
/// - Otherwise: `max(stt_timeout - stop_secs, user_speech_timeout)`
#[derive(Debug)]
pub struct SpeechTimeoutUserTurnStopStrategy {
    enable_user_speaking_frames: bool,
    user_speech_timeout: u64,
    stt_timeout: u64,
    stop_secs: u64,
    text: String,
    vad_user_speaking: bool,
    transcript_finalized: bool,
    /// When VAD stop was received. Used for elapsed-time checks when finalized
    /// transcripts arrive.
    vad_stopped_time: Option<u64>,
    timer: Timer,
}

/// The state of a [`SpeechTimeoutUserTurnStopStrategy`].
pub struct SpeechTimeoutModel {
    pub enable_user_speaking_frames: bool,
    pub user_speech_timeout: u64,
    pub stt_timeout: u64,
    pub stop_secs: u64,
    pub text: Seq<char>,
    pub vad_user_speaking: bool,
    pub transcript_finalized: bool,
    pub vad_stopped_time: Option<u64>,
    pub timer: TimerModel,
}

/// The larger of two durations.
pub open spec fn longer(a: u64, b: u64) -> u64 {
    if a >= b {
        a
    } else {
        b
    }
}

/// What is left of one duration after another has passed.
pub open spec fn beyond(a: u64, b: u64) -> u64 {
    if a >= b {
        (a - b) as u64
    } else {
        0
    }
}

impl SpeechTimeoutModel {
    /// The state of a new strategy.
    pub open spec fn fresh(user_speech_timeout: u64, enable_user_speaking_frames: bool) -> Self {
        SpeechTimeoutModel {
            enable_user_speaking_frames,
            user_speech_timeout,
            stt_timeout: 0,
            stop_secs: 0,
            text: Seq::empty(),
            vad_user_speaking: false,
            transcript_finalized: false,
            vad_stopped_time: None,
            timer: TimerModel::idle(),
        }
    }

    /// How long to wait after VAD stop.
    pub open spec fn wait(self) -> u64 {
        if self.transcript_finalized {
            self.user_speech_timeout
        } else {
            longer(beyond(self.stt_timeout, self.stop_secs), self.user_speech_timeout)
        }
    }

    /// Whether the turn can end once the timer has run out.
    pub open spec fn ready(self) -> bool {
        !self.vad_user_speaking && self.text.len() > 0
    }

    /// Whether a finalized transcript ends the turn at once: VAD stop lies back
    /// at least the user's grace period.
    pub open spec fn ends_at_once(self, now: u64) -> bool {
        &&& self.ready()
        &&& self.transcript_finalized
        &&& self.vad_stopped_time is Some
        &&& beyond(now, self.vad_stopped_time->0) >= self.user_speech_timeout
    }

    /// The state with the timer seen at `now`.
    pub open spec fn polled(self, now: u64) -> SpeechTimeoutModel {
        SpeechTimeoutModel { timer: self.timer.polled(now), ..self }
    }

    /// The state with a transcript added.
    pub open spec fn heard(self, text: Seq<char>, finalized: bool) -> SpeechTimeoutModel {
        SpeechTimeoutModel {
            text: self.text + text,
            transcript_finalized: self.transcript_finalized || finalized,
            ..self
        }
    }
}

impl SpeechTimeoutUserTurnStopStrategy {
    pub fn new(user_speech_timeout: u64) -> (r: Self)
        ensures
            r.model() == SpeechTimeoutModel::fresh(user_speech_timeout, true),
    {
        Self {
            enable_user_speaking_frames: true,
            user_speech_timeout,
            stt_timeout: 0,
            stop_secs: 0,
            text: String::new(),
            vad_user_speaking: false,
            transcript_finalized: false,
            vad_stopped_time: None,
            timer: Timer::new(),
        }
    }

    pub fn with_options(user_speech_timeout: u64, enable_user_speaking_frames: bool) -> (r: Self)
        ensures
            r.model() == SpeechTimeoutModel::fresh(
                user_speech_timeout,
                enable_user_speaking_frames,
            ),
    {
        let mut s = Self::new(user_speech_timeout);
        s.enable_user_speaking_frames = enable_user_speaking_frames;
        s
    }

    fn calculate_timeout(&self) -> (r: u64)
        ensures
            r == self.model().wait(),
    {
        let effective_stt_wait: u64 = if self.stt_timeout >= self.stop_secs {
            self.stt_timeout - self.stop_secs
        } else {
            0
        };
        if self.transcript_finalized || effective_stt_wait < self.user_speech_timeout {
            self.user_speech_timeout
        } else {
            effective_stt_wait
        }
    }

    fn make_stopped_action(&self) -> (r: TurnAction)
        ensures
            r@ == stopped(self.model().enable_user_speaking_frames),
    {
        TurnAction::UserTurnStopped(
            UserTurnStoppedParams { enable_user_speaking_frames: self.enable_user_speaking_frames },
        )
    }

    /// Whether a finalized transcript ends the turn at once.
    fn can_trigger(&self, now: u64) -> (r: bool)
        ensures
            r == self.model().ends_at_once(now),
    {
        if self.vad_user_speaking || self.text.as_str().is_empty() || !self.transcript_finalized {
            return false;
        }
        match self.vad_stopped_time {
            Some(stopped_at) => {
                let elapsed: u64 = if now >= stopped_at {
                    now - stopped_at
                } else {
                    0
                };
                elapsed >= self.user_speech_timeout
            },
            None => false,
        }
    }
}

impl StopStrategy for SpeechTimeoutUserTurnStopStrategy {
    type Model = SpeechTimeoutModel;

    closed spec fn model(&self) -> SpeechTimeoutModel {
        SpeechTimeoutModel {
            enable_user_speaking_frames: self.enable_user_speaking_frames,
            user_speech_timeout: self.user_speech_timeout,
            stt_timeout: self.stt_timeout,
            stop_secs: self.stop_secs,
            text: self.text@,
            vad_user_speaking: self.vad_user_speaking,
            transcript_finalized: self.transcript_finalized,
            vad_stopped_time: self.vad_stopped_time,
            timer: self.timer@,
        }
    }

    open spec fn asked(pre: SpeechTimeoutModel, frame: FrameView) -> (
        SpeechTimeoutModel,
        Seq<AnalyzerCall>,
    ) {
        (pre, Seq::empty())
    }

    open spec fn processed(
        pre: SpeechTimeoutModel,
        frame: FrameView,
        reply: AnalyzerReplyView,
        now: u64,
    ) -> (SpeechTimeoutModel, Seq<TurnActionView>) {
        let pre = pre.polled(now);
        match frame {
            FrameView::STTMetadata { ttfs_p99_latency } => (
                SpeechTimeoutModel { stt_timeout: ttfs_p99_latency, ..pre },
                nothing(),
            ),
            FrameView::VADUserStartedSpeaking { start_secs } => (
                SpeechTimeoutModel {
                    vad_user_speaking: true,
                    transcript_finalized: false,
                    vad_stopped_time: None,
                    timer: pre.timer.cancelled(),
                    ..pre
                },
                nothing(),
            ),
            FrameView::VADUserStoppedSpeaking { stop_secs } => {
                let post = SpeechTimeoutModel {
                    vad_user_speaking: false,
                    stop_secs,
                    vad_stopped_time: Some(now),
                    ..pre
                };
                (
                    SpeechTimeoutModel { timer: pre.timer.started(now, post.wait()), ..post },
                    nothing(),
                )
            },
            FrameView::Transcription(t) => {
                let post = pre.heard(t.text, t.finalized);
                if t.finalized && post.ends_at_once(now) {
                    (
                        SpeechTimeoutModel { timer: post.timer.cancelled(), ..post },
                        seq![stopped(post.enable_user_speaking_frames)],
                    )
                } else if t.finalized && post.vad_stopped_time is Some {
                    (
                        SpeechTimeoutModel { timer: post.timer.started(now, post.wait()), ..post },
                        nothing(),
                    )
                } else if post.vad_stopped_time is None && !post.vad_user_speaking {
                    // A transcript without VAD stop.
                    (
                        SpeechTimeoutModel {
                            timer: post.timer.started(
                                now,
                                longer(post.stt_timeout, post.user_speech_timeout),
                            ),
                            ..post
                        },
                        nothing(),
                    )
                } else {
                    (post, nothing())
                }
            },
            _ => (pre, nothing()),
        }
    }

    open spec fn drained(pre: SpeechTimeoutModel, now: u64) -> (
        SpeechTimeoutModel,
        Seq<TurnActionView>,
    ) {
        let pre = pre.polled(now);
        (
            SpeechTimeoutModel { timer: pre.timer.drained(), ..pre },
            if pre.ready() {
                repeated(stopped(pre.enable_user_speaking_frames), pre.timer.signals)
            } else {
                nothing()
            },
        )
    }

    open spec fn cleared(pre: SpeechTimeoutModel) -> SpeechTimeoutModel {
        SpeechTimeoutModel {
            stt_timeout: pre.stt_timeout,
            ..SpeechTimeoutModel::fresh(pre.user_speech_timeout, pre.enable_user_speaking_frames)
        }
    }

    open spec fn prepared(pre: SpeechTimeoutModel) -> SpeechTimeoutModel {
        pre
    }

    open spec fn closed(pre: SpeechTimeoutModel) -> SpeechTimeoutModel {
        SpeechTimeoutModel { timer: pre.timer.cancelled(), ..pre }
    }

    open spec fn speaks(pre: SpeechTimeoutModel) -> bool {
        pre.enable_user_speaking_frames
    }

    open spec fn wakes(pre: SpeechTimeoutModel) -> Option<u64> {
        pre.timer.deadline
    }

    fn analyzer_calls(&mut self, frame: &Frame) -> (r: Vec<AnalyzerCall>) {
        Vec::new()
    }

    fn process_frame(&mut self, frame: &Frame, reply: AnalyzerReply, now: u64) -> (r: Vec<
        TurnAction,
    >) {
        self.timer.poll(now);
        match frame {
            Frame::STTMetadata { ttfs_p99_latency } => {
                self.stt_timeout = *ttfs_p99_latency;
            },
            Frame::VADUserStartedSpeaking { .. } => {
                self.vad_user_speaking = true;
                self.transcript_finalized = false;
                self.vad_stopped_time = None;
                self.timer.cancel();
            },
            Frame::VADUserStoppedSpeaking { stop_secs } => {
                self.vad_user_speaking = false;
                self.stop_secs = *stop_secs;
                self.vad_stopped_time = Some(now);
                let timeout: u64 = self.calculate_timeout();
                self.timer.start(now, timeout);
            },
            Frame::Transcription(t) => {
                self.text.append(t.text.as_str());
                if t.finalized {
                    self.transcript_finalized = true;
                    if self.can_trigger(now) {
                        self.timer.cancel();
                        return one_action(self.make_stopped_action());
                    }
                    // VAD has already stopped: the wait is now a different one.
                    if self.vad_stopped_time.is_some() {
                        let timeout: u64 = self.calculate_timeout();
                        self.timer.start(now, timeout);
                    }
                }
                if self.vad_stopped_time.is_none() && !self.vad_user_speaking {
                    let timeout: u64 = if self.stt_timeout >= self.user_speech_timeout {
                        self.stt_timeout
                    } else {
                        self.user_speech_timeout
                    };
                    self.timer.start(now, timeout);
                }
            },
            _ => {},
        }
        no_actions()
    }

    fn drain_pending_actions(&mut self, now: u64) -> (r: Vec<TurnAction>) {
        self.timer.poll(now);
        let ready = !self.vad_user_speaking && !self.text.as_str().is_empty();
        drain_signals(&mut self.timer, ready, self.enable_user_speaking_frames)
    }

    fn reset(&mut self) {
        self.timer.cancel();
        self.timer.drain();
        self.text = String::new();
        self.vad_user_speaking = false;
        self.transcript_finalized = false;
        self.vad_stopped_time = None;
        self.stop_secs = 0;
    }

    fn setup(&mut self) {
    }

    fn cleanup(&mut self) {
        self.timer.cancel();
    }

    fn enable_user_speaking_frames(&self) -> (r: bool) {
        self.enable_user_speaking_frames
    }

    fn next_deadline(&self) -> (r: Option<u64>) {
        self.timer.deadline()
    }
}

} // verus!
