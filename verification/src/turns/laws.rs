//! What holds of turn detection as a whole.
use vstd::prelude::*;

use crate::frames::FrameView;
use crate::turns::action::{nothing, TurnActionView};
use crate::turns::controller::{
    drained_all, reply_at, started_all, stopped_all, ControllerModel,
};
use crate::turns::params::{UserTurnStartedParams, UserTurnStoppedParams};
use crate::turns::start::StartStrategy;
use crate::turns::stop::{AnalyzerReplyView, StopStrategy};
use crate::turns::strategies::{AnyStartStrategy, AnyStopStrategy};
use crate::turns::timer::TimerModel;

verus! {

/// Whether a turn is active after a run of actions; nothing if a turn started
/// while one was active, or stopped while none was.
pub open spec fn turn_after(active: bool, actions: Seq<TurnActionView>) -> Option<bool>
    decreases actions.len(),
{
    if actions.len() == 0 {
        Some(active)
    } else {
        match (turn_after(active, actions.drop_last()), actions.last()) {
            (None, _) => None,
            (Some(true), TurnActionView::UserTurnStarted(_)) => None,
            (Some(false), TurnActionView::UserTurnStopped(_)) => None,
            (Some(false), TurnActionView::UserTurnStarted(_)) => Some(true),
            (Some(true), TurnActionView::UserTurnStopped(_)) => Some(false),
            (Some(a), _) => Some(a),
        }
    }
}

/// Whether no action of a run stops a turn.
pub open spec fn no_stop(actions: Seq<TurnActionView>) -> bool {
    forall|i: int| 0 <= i < actions.len() ==> !((#[trigger] actions[i]) is UserTurnStopped)
}

/// Whether no action of a run starts a turn.
pub open spec fn no_start(actions: Seq<TurnActionView>) -> bool {
    forall|i: int| 0 <= i < actions.len() ==> !((#[trigger] actions[i]) is UserTurnStarted)
}

/// Start strategies that leave the stopping of turns to others.
pub open spec fn only_starts<S: StartStrategy>() -> bool {
    forall|pre: S::Model, frame: FrameView| no_stop((#[trigger] S::processed(pre, frame)).1)
}

/// Stop strategies that leave the starting of turns to others.
pub open spec fn only_stops<T: StopStrategy>() -> bool {
    &&& forall|pre: T::Model, frame: FrameView, reply: AnalyzerReplyView, now: u64|
        no_start((#[trigger] T::processed(pre, frame, reply, now)).1)
    &&& forall|pre: T::Model, now: u64| no_start((#[trigger] T::drained(pre, now)).1)
}

/// Whether no action of a run is the end of a turn by inactivity.
pub open spec fn no_timeout(actions: Seq<TurnActionView>) -> bool {
    forall|i: int| 0 <= i < actions.len() ==> !((#[trigger] actions[i]) is UserTurnStopTimeout)
}

/// Strategies that leave the watch for inactivity to the controller.
pub open spec fn no_timeouts<S: StartStrategy, T: StopStrategy>() -> bool {
    &&& forall|pre: S::Model, frame: FrameView| no_timeout((#[trigger] S::processed(pre, frame)).1)
    &&& forall|pre: T::Model, frame: FrameView, reply: AnalyzerReplyView, now: u64|
        no_timeout((#[trigger] T::processed(pre, frame, reply, now)).1)
    &&& forall|pre: T::Model, now: u64| no_timeout((#[trigger] T::drained(pre, now)).1)
}

/// Whether each end by inactivity is directly followed by the turn's stop.
pub open spec fn timeouts_stop(actions: Seq<TurnActionView>) -> bool {
    forall|i: int|
        0 <= i < actions.len() && (#[trigger] actions[i]) is UserTurnStopTimeout ==> i + 1
            < actions.len() && actions[i + 1] is UserTurnStopped
}

/// The strategies of this crate leave the watch for inactivity to the
/// controller.
pub proof fn lemma_strategies_bring_no_timeouts()
    ensures
        no_timeouts::<AnyStartStrategy, AnyStopStrategy>(),
{
}

/// The start strategies of this crate only start turns.
pub proof fn lemma_start_strategies_only_start()
    ensures
        only_starts::<AnyStartStrategy>(),
{
}

/// The stop strategies of this crate only stop turns.
pub proof fn lemma_stop_strategies_only_stop()
    ensures
        only_stops::<AnyStopStrategy>(),
{
}

proof fn lemma_turn_after_concat(active: bool, a: Seq<TurnActionView>, b: Seq<TurnActionView>)
    requires
        turn_after(active, a) is Some,
    ensures
        turn_after(active, a + b) == turn_after(turn_after(active, a)->0, b),
    decreases b.len(),
{
    if b.len() == 0 {
        assert(a + b =~= a);
    } else {
        assert((a + b).drop_last() =~= a + b.drop_last());
        lemma_turn_after_concat(active, a, b.drop_last());
    }
}

proof fn lemma_turn_after_one(active: bool, action: TurnActionView)
    ensures
        turn_after(active, seq![action]) == match action {
            TurnActionView::UserTurnStarted(_) => if active {
                None
            } else {
                Some(true)
            },
            TurnActionView::UserTurnStopped(_) => if active {
                Some(false)
            } else {
                None
            },
            _ => Some(active),
        },
{
    reveal_with_fuel(turn_after, 2);
    assert(seq![action].drop_last() =~= nothing());
}

proof fn lemma_stops_routed<S: StartStrategy, T: StopStrategy>(
    c: ControllerModel<S, T>,
    actions: Seq<TurnActionView>,
    now: u64,
)
    requires
        no_start(actions),
    ensures
        turn_after(c.user_turn, c.stops_routed(actions, now).1) == Some(
            c.stops_routed(actions, now).0.user_turn,
        ),
    decreases actions.len(),
{
    if actions.len() > 0 {
        lemma_stops_routed(c, actions.drop_last(), now);
        let (mid, out) = c.stops_routed(actions.drop_last(), now);
        match actions.last() {
            TurnActionView::UserTurnStopped(params) => {
                let more = mid.turn_stop(params, now).1;
                lemma_turn_after_concat(c.user_turn, out, more);
                lemma_turn_after_one(mid.user_turn, TurnActionView::UserTurnStopped(params));
            },
            other => {
                assert(out.push(other) =~= out + seq![other]);
                lemma_turn_after_concat(c.user_turn, out, seq![other]);
                lemma_turn_after_one(mid.user_turn, other);
                assert(actions[actions.len() - 1] == other);
            },
        }
    }
}

proof fn lemma_starts_routed<S: StartStrategy, T: StopStrategy>(
    c: ControllerModel<S, T>,
    actions: Seq<TurnActionView>,
    now: u64,
)
    requires
        no_stop(actions),
    ensures
        turn_after(c.user_turn, c.starts_routed(actions, now).1) == Some(
            c.starts_routed(actions, now).0.user_turn,
        ),
    decreases actions.len(),
{
    if actions.len() > 0 {
        lemma_starts_routed(c, actions.drop_last(), now);
        let (mid, out) = c.starts_routed(actions.drop_last(), now);
        match actions.last() {
            TurnActionView::UserTurnStarted(params) => {
                let more = mid.turn_start(params, now).1;
                lemma_turn_after_concat(c.user_turn, out, more);
                lemma_turn_after_one(mid.user_turn, TurnActionView::UserTurnStarted(params));
            },
            other => {
                assert(out.push(other) =~= out + seq![other]);
                lemma_turn_after_concat(c.user_turn, out, seq![other]);
                lemma_turn_after_one(mid.user_turn, other);
                assert(actions[actions.len() - 1] == other);
            },
        }
    }
}

proof fn lemma_timed_out<S: StartStrategy, T: StopStrategy>(c: ControllerModel<S, T>, now: u64)
    ensures
        turn_after(c.user_turn, c.timed_out(now).1) == Some(c.timed_out(now).0.user_turn),
{
    let params = UserTurnStoppedParams { enable_user_speaking_frames: true };
    let first = seq![TurnActionView::UserTurnStopTimeout];
    let second = seq![TurnActionView::UserTurnStopped(params)];
    lemma_turn_after_one(c.user_turn, TurnActionView::UserTurnStopTimeout);
    lemma_turn_after_one(c.user_turn, TurnActionView::UserTurnStopped(params));
    lemma_turn_after_concat(c.user_turn, first, second);
    assert(first + second =~= seq![
        TurnActionView::UserTurnStopTimeout,
        TurnActionView::UserTurnStopped(params),
    ]);
}

proof fn lemma_drained_all<T: StopStrategy>(list: Seq<T::Model>, now: u64)
    requires
        only_stops::<T>(),
    ensures
        no_start(drained_all::<T>(list, now).1),
    decreases list.len(),
{
    if list.len() > 0 {
        lemma_drained_all::<T>(list.drop_last(), now);
        let more = T::drained(list.last(), now).1;
        assert(no_start(more));
    }
}

proof fn lemma_stopped_all<T: StopStrategy>(
    list: Seq<T::Model>,
    frame: FrameView,
    replies: Seq<AnalyzerReplyView>,
    now: u64,
)
    requires
        only_stops::<T>(),
    ensures
        no_start(stopped_all::<T>(list, frame, replies, now).1),
    decreases list.len(),
{
    if list.len() > 0 {
        lemma_stopped_all::<T>(list.drop_last(), frame, replies, now);
        let more = T::processed(
            list.last(),
            frame,
            reply_at(replies, list.len() - 1),
            now,
        ).1;
        assert(no_start(more));
    }
}

proof fn lemma_started_all<S: StartStrategy>(list: Seq<S::Model>, frame: FrameView)
    requires
        only_starts::<S>(),
    ensures
        no_stop(started_all::<S>(list, frame).1),
    decreases list.len(),
{
    if list.len() > 0 {
        lemma_started_all::<S>(list.drop_last(), frame);
        let more = S::processed(list.last(), frame).1;
        assert(no_stop(more));
    }
}

/// Turns alternate: among the actions that a frame calls for, no turn starts
/// while one is active and none stops while none is, and the controller's state
/// agrees with the actions at the end.
pub proof fn lemma_turns_alternate<S: StartStrategy, T: StopStrategy>(
    c: ControllerModel<S, T>,
    frame: FrameView,
    replies: Seq<AnalyzerReplyView>,
    now: u64,
)
    requires
        only_starts::<S>(),
        only_stops::<T>(),
    ensures
        turn_after(c.user_turn, c.begun(frame, now).1) == Some(c.begun(frame, now).0.user_turn),
        turn_after(c.user_turn, c.finished(frame, replies, now).1) == Some(
            c.finished(frame, replies, now).0.user_turn,
        ),
        ({
            let (mid, first) = c.begun(frame, now);
            let (post, second) = mid.finished(frame, replies, now);
            turn_after(c.user_turn, first + second) == Some(post.user_turn)
        }),
{
    lemma_begun_alternates(c, frame, now);
    lemma_finished_alternates(c, frame, replies, now);
    let (mid, first) = c.begun(frame, now);
    lemma_finished_alternates(mid, frame, replies, now);
    lemma_turn_after_concat(c.user_turn, first, mid.finished(frame, replies, now).1);
}

proof fn lemma_begun_alternates<S: StartStrategy, T: StopStrategy>(
    c: ControllerModel<S, T>,
    frame: FrameView,
    now: u64,
)
    requires
        only_starts::<S>(),
        only_stops::<T>(),
    ensures
        turn_after(c.user_turn, c.begun(frame, now).1) == Some(c.begun(frame, now).0.user_turn),
{
    let c0 = c.watched(now).noticed(frame, now);
    let (stop, pending) = drained_all::<T>(c0.stop, now);
    let c1 = ControllerModel::<S, T> { stop, ..c0 };
    lemma_drained_all::<T>(c0.stop, now);
    lemma_stops_routed(c1, pending, now);
    let (c2, first) = c1.stops_routed(pending, now);
    lemma_timed_out(c2, now);
    let (c3, second) = c2.timed_out(now);
    lemma_turn_after_concat(c.user_turn, first, second);
    let (start, actions) = started_all::<S>(c3.start, frame);
    lemma_started_all::<S>(c3.start, frame);
    let c4 = ControllerModel::<S, T> { start, ..c3 };
    lemma_starts_routed(c4, actions, now);
    lemma_turn_after_concat(c.user_turn, first + second, c4.starts_routed(actions, now).1);
}

proof fn lemma_finished_alternates<S: StartStrategy, T: StopStrategy>(
    c: ControllerModel<S, T>,
    frame: FrameView,
    replies: Seq<AnalyzerReplyView>,
    now: u64,
)
    requires
        only_stops::<T>(),
    ensures
        turn_after(c.user_turn, c.finished(frame, replies, now).1) == Some(
            c.finished(frame, replies, now).0.user_turn,
        ),
{
    let (stop, actions) = stopped_all::<T>(c.stop, frame, replies, now);
    lemma_stopped_all::<T>(c.stop, frame, replies, now);
    lemma_stops_routed(ControllerModel::<S, T> { stop, ..c }, actions, now);
}

/// Inactivity ends a turn only where one is active and the user is not
/// speaking; it then ends it for good, and all strategies are reset.
pub proof fn lemma_timeout_needs_a_silent_turn<S: StartStrategy, T: StopStrategy>(
    c: ControllerModel<S, T>,
    now: u64,
)
    ensures
        c.timed_out(now).1.len() > 0 <==> c.timer.signals > 0 && c.user_turn && !c.user_speaking,
        c.timed_out(now).1.len() > 0 ==> {
            &&& !c.timed_out(now).0.user_turn
            &&& forall|i: int|
                0 <= i < c.stop.len() ==> (#[trigger] c.timed_out(now).0.stop[i]) == T::cleared(
                    c.stop[i],
                )
            &&& forall|i: int|
                0 <= i < c.start.len() ==> (#[trigger] c.timed_out(now).0.start[i]) == S::cleared(
                    c.start[i],
                )
        },
        c.timed_out(now).0.timer.signals == 0,
{
}

/// Speech and transcriptions put the end of a turn off: with each of them the
/// inactivity timer starts anew.
pub proof fn lemma_activity_restarts_the_timer<S: StartStrategy, T: StopStrategy>(
    c: ControllerModel<S, T>,
    frame: FrameView,
    now: u64,
)
    requires
        c.watching,
        frame is UserStartedSpeaking || frame is UserStoppedSpeaking
            || frame is VADUserStartedSpeaking || frame is VADUserStoppedSpeaking
            || frame is Transcription || frame is InterimTranscription,
    ensures
        c.noticed(frame, now).timer == c.timer.started(now, c.user_turn_stop_timeout),
{
}

/// A reset stop strategy has nothing pending and ends no turn before new text
/// arrives, whatever the time.
pub proof fn lemma_reset_leaves_nothing_pending(
    pre: crate::turns::strategies::AnyStopModel,
    now: u64,
)
    ensures
        AnyStopStrategy::drained(AnyStopStrategy::cleared(pre), now).1 == nothing(),
        AnyStopStrategy::wakes(AnyStopStrategy::cleared(pre)) is None,
        AnyStopStrategy::speaks(AnyStopStrategy::cleared(pre)) == AnyStopStrategy::speaks(pre),
{
}

/// At both ends of a turn all strategies are reset: when it stops, the start
/// strategies prepare for the next start; when it starts, the stop strategies
/// prepare for its stop.
pub proof fn lemma_turn_ends_reset_strategies<S: StartStrategy, T: StopStrategy>(
    c: ControllerModel<S, T>,
    started: UserTurnStartedParams,
    stopped: UserTurnStoppedParams,
    now: u64,
)
    ensures
        !c.user_turn ==> {
            let post = c.turn_start(started, now).0;
            &&& post.user_turn
            &&& post.start == c.start.map_values(|m: S::Model| S::cleared(m))
            &&& post.stop == c.stop.map_values(|m: T::Model| T::cleared(m))
        },
        c.user_turn ==> {
            let post = c.turn_stop(stopped, now).0;
            &&& !post.user_turn
            &&& post.start == c.start.map_values(|m: S::Model| S::cleared(m))
            &&& post.stop == c.stop.map_values(|m: T::Model| T::cleared(m))
        },
{
}

proof fn lemma_no_timeouts_all<S: StartStrategy, T: StopStrategy>(
    start: Seq<S::Model>,
    stop: Seq<T::Model>,
    frame: FrameView,
    replies: Seq<AnalyzerReplyView>,
    now: u64,
)
    requires
        no_timeouts::<S, T>(),
    ensures
        no_timeout(started_all::<S>(start, frame).1),
        no_timeout(drained_all::<T>(stop, now).1),
        no_timeout(stopped_all::<T>(stop, frame, replies, now).1),
    decreases start.len() + stop.len(),
{
    if start.len() > 0 {
        lemma_no_timeouts_all::<S, T>(start.drop_last(), stop, frame, replies, now);
        assert(no_timeout(S::processed(start.last(), frame).1));
    }
    if stop.len() > 0 {
        lemma_no_timeouts_all::<S, T>(start, stop.drop_last(), frame, replies, now);
        assert(no_timeout(T::drained(stop.last(), now).1));
        assert(no_timeout(
            T::processed(stop.last(), frame, reply_at(replies, stop.len() - 1), now).1,
        ));
    }
}

proof fn lemma_routing_brings_no_timeouts<S: StartStrategy, T: StopStrategy>(
    c: ControllerModel<S, T>,
    actions: Seq<TurnActionView>,
    now: u64,
)
    requires
        no_timeout(actions),
    ensures
        no_timeout(c.starts_routed(actions, now).1),
        no_timeout(c.stops_routed(actions, now).1),
    decreases actions.len(),
{
    if actions.len() > 0 {
        lemma_routing_brings_no_timeouts(c, actions.drop_last(), now);
        assert(!(actions[actions.len() - 1] is UserTurnStopTimeout));
    }
}

/// The end of a turn by inactivity is directly followed by its stop.
pub proof fn lemma_timeouts_stop_the_turn<S: StartStrategy, T: StopStrategy>(
    c: ControllerModel<S, T>,
    frame: FrameView,
    replies: Seq<AnalyzerReplyView>,
    now: u64,
)
    requires
        no_timeouts::<S, T>(),
    ensures
        timeouts_stop(c.begun(frame, now).1),
        no_timeout(c.finished(frame, replies, now).1),
{
    let c0 = c.watched(now).noticed(frame, now);
    let (stop, pending) = drained_all::<T>(c0.stop, now);
    let c1 = ControllerModel::<S, T> { stop, ..c0 };
    lemma_no_timeouts_all::<S, T>(c0.start, c0.stop, frame, replies, now);
    lemma_routing_brings_no_timeouts(c1, pending, now);
    let (c2, first) = c1.stops_routed(pending, now);
    let (c3, second) = c2.timed_out(now);
    let (start, actions) = started_all::<S>(c3.start, frame);
    lemma_no_timeouts_all::<S, T>(c3.start, c3.stop, frame, replies, now);
    let c4 = ControllerModel::<S, T> { start, ..c3 };
    lemma_routing_brings_no_timeouts(c4, actions, now);
    let third = c4.starts_routed(actions, now).1;
    lemma_timeouts_concat(first, second);
    lemma_timeouts_concat(first + second, third);
    let (stop, actions) = stopped_all::<T>(c.stop, frame, replies, now);
    lemma_no_timeouts_all::<S, T>(c.start, c.stop, frame, replies, now);
    lemma_routing_brings_no_timeouts(ControllerModel::<S, T> { stop, ..c }, actions, now);
}

proof fn lemma_timeouts_concat(a: Seq<TurnActionView>, b: Seq<TurnActionView>)
    requires
        timeouts_stop(a),
        timeouts_stop(b),
    ensures
        timeouts_stop(a + b),
{
    let all = a + b;
    assert forall|i: int|
        0 <= i < all.len() && (#[trigger] all[i]) is UserTurnStopTimeout implies i + 1 < all.len()
        && all[i + 1] is UserTurnStopped by {
        if i < a.len() {
            assert(a[i] is UserTurnStopTimeout);
        } else {
            assert(b[i - a.len()] is UserTurnStopTimeout);
        }
    }
}

/// A call of a controller's method. `process_frame` is `Begin` and `Finish` with
/// no replies.
pub enum ControllerCall<S: StartStrategy, T: StopStrategy> {
    Begin { frame: FrameView, now: u64 },
    Ask { frame: FrameView },
    Finish { frame: FrameView, replies: Seq<AnalyzerReplyView>, now: u64 },
    Setup { now: u64 },
    Cleanup,
    Update { start: Seq<S::Model>, stop: Seq<T::Model> },
}

impl<S: StartStrategy, T: StopStrategy> ControllerModel<S, T> {
    /// The controller after a call, and the actions that it returns.
    pub open spec fn called(self, call: ControllerCall<S, T>) -> (Self, Seq<TurnActionView>) {
        match call {
            ControllerCall::Begin { frame, now } => self.begun(frame, now),
            ControllerCall::Ask { frame } => (
                ControllerModel {
                    stop: self.stop.map_values(|m: T::Model| T::asked(m, frame).0),
                    ..self
                },
                nothing(),
            ),
            ControllerCall::Finish { frame, replies, now } => self.finished(frame, replies, now),
            ControllerCall::Setup { now } => (
                ControllerModel {
                    watching: true,
                    timer: TimerModel::idle().started(now, self.user_turn_stop_timeout),
                    ..self.strategies_prepared()
                },
                nothing(),
            ),
            ControllerCall::Cleanup => (
                ControllerModel {
                    watching: false,
                    timer: self.timer.cancelled(),
                    ..self.strategies_closed()
                },
                nothing(),
            ),
            ControllerCall::Update { start, stop } => (
                ControllerModel { start, stop, ..self }.strategies_prepared(),
                nothing(),
            ),
        }
    }

    /// The controller after a run of calls, and all actions that they return.
    pub open spec fn called_all(self, calls: Seq<ControllerCall<S, T>>) -> (
        Self,
        Seq<TurnActionView>,
    )
        decreases calls.len(),
    {
        if calls.len() == 0 {
            (self, nothing())
        } else {
            let (c, actions) = self.called_all(calls.drop_last());
            let (c, more) = c.called(calls.last());
            (c, actions + more)
        }
    }
}

/// Turns alternate over any run of calls: no turn starts while one is active
/// and none stops while none is, and the controller's state agrees with the
/// actions at the end.
pub proof fn lemma_turns_alternate_over_runs<S: StartStrategy, T: StopStrategy>(
    c: ControllerModel<S, T>,
    calls: Seq<ControllerCall<S, T>>,
)
    requires
        only_starts::<S>(),
        only_stops::<T>(),
    ensures
        turn_after(c.user_turn, c.called_all(calls).1) == Some(c.called_all(calls).0.user_turn),
    decreases calls.len(),
{
    if calls.len() > 0 {
        lemma_turns_alternate_over_runs(c, calls.drop_last());
        let (mid, actions) = c.called_all(calls.drop_last());
        let more = mid.called(calls.last()).1;
        match calls.last() {
            ControllerCall::Begin { frame, now } => {
                lemma_begun_alternates(mid, frame, now);
            },
            ControllerCall::Finish { frame, replies, now } => {
                lemma_finished_alternates(mid, frame, replies, now);
            },
            _ => {},
        }
        lemma_turn_after_concat(c.user_turn, actions, more);
    }
}

/// Over any run of calls, the end of a turn by inactivity is directly followed
/// by its stop.
pub proof fn lemma_timeouts_stop_the_turn_over_runs<S: StartStrategy, T: StopStrategy>(
    c: ControllerModel<S, T>,
    calls: Seq<ControllerCall<S, T>>,
)
    requires
        no_timeouts::<S, T>(),
    ensures
        timeouts_stop(c.called_all(calls).1),
    decreases calls.len(),
{
    if calls.len() > 0 {
        lemma_timeouts_stop_the_turn_over_runs(c, calls.drop_last());
        let (mid, actions) = c.called_all(calls.drop_last());
        let more = mid.called(calls.last()).1;
        match calls.last() {
            ControllerCall::Begin { frame, now } => {
                lemma_timeouts_stop_the_turn(mid, frame, Seq::empty(), now);
            },
            ControllerCall::Finish { frame, replies, now } => {
                lemma_timeouts_stop_the_turn(mid, frame, replies, now);
            },
            _ => {},
        }
        assert(timeouts_stop(more));
        lemma_timeouts_concat(actions, more);
    }
}

/// The starts and stops of turns among actions, in their order.
pub open spec fn marks(actions: Seq<TurnActionView>) -> Seq<TurnActionView>
    decreases actions.len(),
{
    if actions.len() == 0 {
        nothing()
    } else if actions.last() is UserTurnStarted || actions.last() is UserTurnStopped {
        marks(actions.drop_last()).push(actions.last())
    } else {
        marks(actions.drop_last())
    }
}

proof fn lemma_marks(actions: Seq<TurnActionView>)
    requires
        turn_after(false, actions) is Some,
    ensures
        forall|i: int|
            0 <= i < marks(actions).len() ==> if i % 2 == 0 {
                (#[trigger] marks(actions)[i]) is UserTurnStarted
            } else {
                marks(actions)[i] is UserTurnStopped
            },
        turn_after(false, actions)->0 <==> marks(actions).len() % 2 == 1,
    decreases actions.len(),
{
    if actions.len() > 0 {
        lemma_marks(actions.drop_last());
    }
}

/// The starts and stops that a new controller returns over any run of calls
/// alternate strictly, a start first; a turn is active exactly if the last of
/// them is a start.
pub proof fn lemma_starts_and_stops_alternate<S: StartStrategy, T: StopStrategy>(
    c: ControllerModel<S, T>,
    calls: Seq<ControllerCall<S, T>>,
)
    requires
        only_starts::<S>(),
        only_stops::<T>(),
        !c.user_turn,
    ensures
        ({
            let (post, actions) = c.called_all(calls);
            &&& forall|i: int|
                0 <= i < marks(actions).len() ==> if i % 2 == 0 {
                    (#[trigger] marks(actions)[i]) is UserTurnStarted
                } else {
                    marks(actions)[i] is UserTurnStopped
                }
            &&& post.user_turn <==> marks(actions).len() > 0 && marks(
                actions,
            ).last() is UserTurnStarted
        }),
{
    lemma_turns_alternate_over_runs(c, calls);
    lemma_marks(c.called_all(calls).1);
}

} // verus!
