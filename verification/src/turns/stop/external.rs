//! Turn ends reported by an external service.
use vstd::prelude::*;
use vstd::string::*;

use crate::frames::{Frame, FrameView};
use crate::turns::action::{actions_of, no_actions, nothing, one_action, TurnAction, TurnActionView};
use crate::turns::params::UserTurnStoppedParams;
use crate::turns::stop::{
    drain_signals, repeated, stopped, AnalyzerCall, AnalyzerReply, AnalyzerReplyView, StopStrategy,
};
use crate::turns::timer::{Timer, TimerModel};

verus! {

/// The default aggregation timeout: half a second.
pub const DEFAULT_TIMEOUT: u64 = 500_000_000;

/// Stops a user turn when an external service emits `UserStoppedSpeaking`.
///
/// Uses an aggregation timer to handle delayed or consecutive transcriptions:
/// each transcription restarts the timer. The turn stops when the user is not
/// speaking, no interim results are pending, and transcription text exists.
#[derive(Debug)]
pub struct ExternalUserTurnStopStrategy {
    enable_user_speaking_frames: bool,
    timeout: u64,
    text: String,
    user_speaking: bool,
    seen_interim_results: bool,
    timer: Timer,
}

/// The state of an [`ExternalUserTurnStopStrategy`].
pub struct ExternalStopModel {
    pub enable_user_speaking_frames: bool,
    pub timeout: u64,
    pub text: Seq<char>,
    pub user_speaking: bool,
    pub seen_interim_results: bool,
    pub timer: TimerModel,
}

impl ExternalStopModel {
    /// The state of a new strategy.
    pub open spec fn fresh(timeout: u64) -> ExternalStopModel {
        ExternalStopModel {
            enable_user_speaking_frames: false,
            timeout,
            text: Seq::empty(),
            user_speaking: false,
            seen_interim_results: false,
            timer: TimerModel::idle(),
        }
    }

    /// Whether the turn can end.
    pub open spec fn ready(self) -> bool {
        !self.user_speaking && !self.seen_interim_results && self.text.len() > 0
    }

    /// The actions of a check whether the turn can end.
    pub open spec fn triggered(self) -> Seq<TurnActionView> {
        if self.ready() {
            seq![stopped(self.enable_user_speaking_frames)]
        } else {
            nothing()
        }
    }

    /// The state with the timer seen at `now`.
    pub open spec fn polled(self, now: u64) -> ExternalStopModel {
        ExternalStopModel { timer: self.timer.polled(now), ..self }
    }
}

impl ExternalUserTurnStopStrategy {
    pub fn new(timeout: u64) -> (r: Self)
        ensures
            r.model() == ExternalStopModel::fresh(timeout),
    {
        Self {
            enable_user_speaking_frames: false,
            timeout,
            text: String::new(),
            user_speaking: false,
            seen_interim_results: false,
            timer: Timer::new(),
        }
    }

    fn maybe_trigger(&self) -> (r: Vec<TurnAction>)
        ensures
            actions_of(r@) == self.model().triggered(),
    {
        if !self.user_speaking && !self.seen_interim_results && !self.text.as_str().is_empty() {
            one_action(
                TurnAction::UserTurnStopped(
                    UserTurnStoppedParams {
                        enable_user_speaking_frames: self.enable_user_speaking_frames,
                    },
                ),
            )
        } else {
            no_actions()
        }
    }
}

impl Default for ExternalUserTurnStopStrategy {
    fn default() -> (r: Self)
        ensures
            r.model() == ExternalStopModel::fresh(DEFAULT_TIMEOUT),
    {
        Self::new(DEFAULT_TIMEOUT)
    }
}

impl StopStrategy for ExternalUserTurnStopStrategy {
    type Model = ExternalStopModel;

    closed spec fn model(&self) -> ExternalStopModel {
        ExternalStopModel {
            enable_user_speaking_frames: self.enable_user_speaking_frames,
            timeout: self.timeout,
            text: self.text@,
            user_speaking: self.user_speaking,
            seen_interim_results: self.seen_interim_results,
            timer: self.timer@,
        }
    }

    open spec fn asked(pre: ExternalStopModel, frame: FrameView) -> (
        ExternalStopModel,
        Seq<AnalyzerCall>,
    ) {
        (pre, Seq::empty())
    }

    open spec fn processed(
        pre: ExternalStopModel,
        frame: FrameView,
        reply: AnalyzerReplyView,
        now: u64,
    ) -> (ExternalStopModel, Seq<TurnActionView>) {
        let pre = pre.polled(now);
        match frame {
            FrameView::UserStartedSpeaking => (
                ExternalStopModel { user_speaking: true, ..pre },
                nothing(),
            ),
            FrameView::UserStoppedSpeaking => {
                let post = ExternalStopModel { user_speaking: false, ..pre };
                (post, post.triggered())
            },
            FrameView::InterimTranscription(_) => (
                ExternalStopModel { seen_interim_results: true, ..pre },
                nothing(),
            ),
            FrameView::Transcription(t) => (
                ExternalStopModel {
                    text: pre.text + t.text,
                    seen_interim_results: false,
                    timer: pre.timer.started(now, pre.timeout),
                    ..pre
                },
                nothing(),
            ),
            _ => (pre, nothing()),
        }
    }

    open spec fn drained(pre: ExternalStopModel, now: u64) -> (
        ExternalStopModel,
        Seq<TurnActionView>,
    ) {
        let pre = pre.polled(now);
        (
            ExternalStopModel { timer: pre.timer.drained(), ..pre },
            if pre.ready() {
                repeated(stopped(pre.enable_user_speaking_frames), pre.timer.signals)
            } else {
                nothing()
            },
        )
    }

    open spec fn cleared(pre: ExternalStopModel) -> ExternalStopModel {
        ExternalStopModel {
            text: Seq::empty(),
            user_speaking: false,
            seen_interim_results: false,
            timer: TimerModel::idle(),
            ..pre
        }
    }

    open spec fn prepared(pre: ExternalStopModel) -> ExternalStopModel {
        pre
    }

    open spec fn closed(pre: ExternalStopModel) -> ExternalStopModel {
        ExternalStopModel { timer: pre.timer.cancelled(), ..pre }
    }

    open spec fn speaks(pre: ExternalStopModel) -> bool {
        pre.enable_user_speaking_frames
    }

    open spec fn wakes(pre: ExternalStopModel) -> Option<u64> {
        pre.timer.deadline
    }

    fn analyzer_calls(&mut self, frame: &Frame) -> (r: Vec<AnalyzerCall>) {
        Vec::new()
    }

    fn process_frame(&mut self, frame: &Frame, reply: AnalyzerReply, now: u64) -> (r: Vec<
        TurnAction,
    >) {
        self.timer.poll(now);
        match frame {
            Frame::UserStartedSpeaking => {
                self.user_speaking = true;
            },
            Frame::UserStoppedSpeaking => {
                self.user_speaking = false;
                return self.maybe_trigger();
            },
            Frame::InterimTranscription(_) => {
                self.seen_interim_results = true;
            },
            Frame::Transcription(t) => {
                self.text.append(t.text.as_str());
                self.seen_interim_results = false;
                // Restart the aggregation timer on each final transcription.
                self.timer.start(now, self.timeout);
            },
            _ => {},
        }
        no_actions()
    }

    fn drain_pending_actions(&mut self, now: u64) -> (r: Vec<TurnAction>) {
        self.timer.poll(now);
        let ready = !self.user_speaking && !self.seen_interim_results
            && !self.text.as_str().is_empty();
        drain_signals(&mut self.timer, ready, self.enable_user_speaking_frames)
    }

    fn reset(&mut self) {
        self.timer.cancel();
        self.timer.drain();
        self.text = String::new();
        self.user_speaking = false;
        self.seen_interim_results = false;
    }

    fn setup(&mut self) {
    }

    fn cleanup(&mut self) {
        self.timer.cancel();
    }

    fn enable_user_speaking_frames(&self) -> (r: bool) {
        self.enable_user_speaking_frames
    }

    fn next_deadline(&self) -> (r: Option<u64>) {
        self.timer.deadline()
    }
}

} // verus!
