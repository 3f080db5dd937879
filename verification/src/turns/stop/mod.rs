//! Strategies that detect the end of a user turn.
pub mod external;
pub mod speech_timeout;
pub mod turn_analyzer;

pub use external::ExternalUserTurnStopStrategy;
pub use speech_timeout::SpeechTimeoutUserTurnStopStrategy;
pub use turn_analyzer::TurnAnalyzerUserTurnStopStrategy;

use serde_json::Value;
use vstd::prelude::*;

use crate::frames::{Frame, FrameView, MetricsData, MetricsOf};
use crate::json::{json_opt, Json};
use crate::turns::action::{
    actions_of, no_actions, nothing, push_action, TurnAction, TurnActionView,
};
use crate::turns::params::UserTurnStoppedParams;
use crate::turns::timer::Timer;

verus! {

/// What a turn analyzer makes of the audio so far.
#[derive(Debug, Clone, Copy, PartialEq, Eq, Structural)]
pub enum EndOfTurnState {
    Complete,
    Incomplete,
}

/// A call that a strategy needs made on its turn analyzer. The program makes
/// the calls in their order.
#[derive(Debug, Clone, Copy, PartialEq, Eq, Structural)]
pub enum AnalyzerCall {
    /// Set the sample rate of the audio.
    SetSampleRate(u32),
    /// Ask for the analyzer's parameters.
    Params,
    /// Append the frame's audio, and say whether it is speech. If the state is
    /// then complete, analyze the end of turn as well.
    AppendAudio { is_speech: bool },
    /// Set how long speech must last before it counts.
    UpdateVadStartSecs(u64),
    /// Analyze the end of turn.
    AnalyzeEndOfTurn,
    /// Forget the audio so far.
    Clear,
    /// Release what the analyzer holds.
    Cleanup,
}

/// What came back from the calls on a turn analyzer.
#[derive(Debug)]
pub struct AnalyzerReply {
    /// The parameters, where they were asked for.
    pub params: Option<Value>,
    /// The state after audio was appended.
    pub appended: EndOfTurnState,
    /// The state that the analysis found.
    pub analyzed: EndOfTurnState,
    /// The measurements of the analysis.
    pub metrics: Option<MetricsData>,
}

/// What an [`AnalyzerReply`] says.
pub struct AnalyzerReplyView {
    pub params: Option<Json>,
    pub appended: EndOfTurnState,
    pub analyzed: EndOfTurnState,
    pub metrics: Option<MetricsOf<Seq<char>>>,
}

impl View for AnalyzerReply {
    type V = AnalyzerReplyView;

    open spec fn view(&self) -> AnalyzerReplyView {
        AnalyzerReplyView {
            params: json_opt(self.params),
            appended: self.appended,
            analyzed: self.analyzed,
            metrics: match self.metrics {
                Some(m) => Some(m@),
                None => None,
            },
        }
    }
}

impl AnalyzerReplyView {
    /// The reply where no call was made.
    pub open spec fn none() -> AnalyzerReplyView {
        AnalyzerReplyView {
            params: None,
            appended: EndOfTurnState::Incomplete,
            analyzed: EndOfTurnState::Incomplete,
            metrics: None,
        }
    }
}

impl AnalyzerReply {
    /// The reply where no call was made.
    pub fn none() -> (r: Self)
        ensures
            r@ == AnalyzerReplyView::none(),
    {
        AnalyzerReply {
            params: None,
            appended: EndOfTurnState::Incomplete,
            analyzed: EndOfTurnState::Incomplete,
            metrics: None,
        }
    }
}

/// The action that ends a turn.
pub open spec fn stopped(enable_user_speaking_frames: bool) -> TurnActionView {
    TurnActionView::UserTurnStopped(UserTurnStoppedParams { enable_user_speaking_frames })
}

/// One and the same action, `n` times over.
pub open spec fn repeated(action: TurnActionView, n: nat) -> Seq<TurnActionView> {
    Seq::new(n, |i: int| action)
}

/// Takes the signals of a timer. Each of them ends the turn, if it can end.
pub(crate) fn drain_signals(
    timer: &mut Timer,
    ready: bool,
    enable_user_speaking_frames: bool,
) -> (r: Vec<TurnAction>)
    ensures
        final(timer)@ == old(timer)@.drained(),
        actions_of(r@) == if ready {
            repeated(stopped(enable_user_speaking_frames), old(timer)@.signals)
        } else {
            nothing()
        },
{
    let ghost pre = timer@;
    let mut actions = no_actions();
    proof {
        assert(nothing() =~= repeated(stopped(enable_user_speaking_frames), 0));
    }
    while timer.take_signal().is_some()
        invariant
            timer@.deadline == pre.deadline,
            timer@.signals <= pre.signals,
            actions_of(actions@) == if ready {
                repeated(
                    stopped(enable_user_speaking_frames),
                    (pre.signals - timer@.signals) as nat,
                )
            } else {
                nothing()
            },
        ensures
            timer@.signals == 0,
        decreases timer@.signals,
    {
        if ready {
            push_action(
                &mut actions,
                TurnAction::UserTurnStopped(UserTurnStoppedParams { enable_user_speaking_frames }),
            );
            proof {
                assert(actions_of(actions@) =~= repeated(
                    stopped(enable_user_speaking_frames),
                    (pre.signals - timer@.signals) as nat,
                ));
            }
        }
    }
    actions
}

/// Strategies that detect when a user finishes a speaking turn.
///
/// A strategy may run a timer. What it decides when the timer has run out is
/// collected by `drain_pending_actions`, which the controller calls in each
/// `process_frame` cycle. A strategy may also consult a turn analyzer: the
/// calls that it needs for a frame come from `analyzer_calls`, and their
/// outcome is handed to `process_frame`.
pub trait StopStrategy: Sized {
    /// The state of the strategy.
    type Model;

    spec fn model(&self) -> Self::Model;

    /// The calls to be made on the turn analyzer for a frame, and the state
    /// after handing them out.
    spec fn asked(pre: Self::Model, frame: FrameView) -> (Self::Model, Seq<AnalyzerCall>);

    /// The state after a frame, and the actions that the frame calls for.
    spec fn processed(
        pre: Self::Model,
        frame: FrameView,
        reply: AnalyzerReplyView,
        now: u64,
    ) -> (Self::Model, Seq<TurnActionView>);

    /// The state after the timer's signals are taken, and the actions that they
    /// call for.
    spec fn drained(pre: Self::Model, now: u64) -> (Self::Model, Seq<TurnActionView>);

    /// The state after a reset.
    spec fn cleared(pre: Self::Model) -> Self::Model;

    /// The state after one-time initialization.
    spec fn prepared(pre: Self::Model) -> Self::Model;

    /// The state after shutdown.
    spec fn closed(pre: Self::Model) -> Self::Model;

    spec fn speaks(pre: Self::Model) -> bool;

    /// When the running timer runs out.
    spec fn wakes(pre: Self::Model) -> Option<u64>;

    /// The calls to be made on the turn analyzer before the frame is processed.
    fn analyzer_calls(&mut self, frame: &Frame) -> (r: Vec<AnalyzerCall>)
        ensures
            (final(self).model(), r@) == Self::asked(old(self).model(), frame@),
    ;

    /// Process an incoming frame. Returns immediate actions.
    fn process_frame(&mut self, frame: &Frame, reply: AnalyzerReply, now: u64) -> (r: Vec<
        TurnAction,
    >)
        ensures
            (final(self).model(), actions_of(r@)) == Self::processed(
                old(self).model(),
                frame@,
                reply@,
                now,
            ),
    ;

    /// Drain any pending actions, such as those of a timer that has run out.
    fn drain_pending_actions(&mut self, now: u64) -> (r: Vec<TurnAction>)
        ensures
            (final(self).model(), actions_of(r@)) == Self::drained(old(self).model(), now),
    ;

    /// Reset the strategy to its initial state. Called when a user turn starts
    /// (preparing to detect the stop), and when one stops (so that the strategy
    /// doesn't fire again for the same gap).
    fn reset(&mut self)
        ensures
            final(self).model() == Self::cleared(old(self).model()),
    ;

    /// One-time initialization.
    fn setup(&mut self)
        ensures
            final(self).model() == Self::prepared(old(self).model()),
    ;

    /// Shutdown cleanup.
    fn cleanup(&mut self)
        ensures
            final(self).model() == Self::closed(old(self).model()),
    ;

    /// Whether this strategy enables user speaking frames when it triggers.
    fn enable_user_speaking_frames(&self) -> (r: bool)
        ensures
            r == Self::speaks(self.model()),
    ;

    /// When `drain_pending_actions` is next worth calling.
    fn next_deadline(&self) -> (r: Option<u64>)
        ensures
            r == Self::wakes(self.model()),
    ;
}

} // verus!
