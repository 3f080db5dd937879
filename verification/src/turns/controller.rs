//! The controller of user turns.
use vstd::prelude::*;

use crate::frames::{Frame, FrameView};
use crate::turns::action::{
    actions_of, append_actions, no_actions, nothing, one_action, push_action, TurnAction,
    TurnActionView,
};
use crate::turns::params::{UserTurnStartedParams, UserTurnStoppedParams};
use crate::turns::start::StartStrategy;
use crate::turns::stop::{AnalyzerCall, AnalyzerReply, AnalyzerReplyView, StopStrategy};
use crate::turns::strategies::UserTurnStrategies;
use crate::turns::timer::{Timer, TimerModel};

verus! {

/// The states of start strategies.
pub open spec fn start_models<S: StartStrategy>(list: Seq<S>) -> Seq<S::Model> {
    list.map_values(|s: S| s.model())
}

/// The states of stop strategies.
pub open spec fn stop_models<T: StopStrategy>(list: Seq<T>) -> Seq<T::Model> {
    list.map_values(|t: T| t.model())
}

/// Takes what is pending in stop strategies, one after the other.
pub open spec fn drained_all<T: StopStrategy>(list: Seq<T::Model>, now: u64) -> (
    Seq<T::Model>,
    Seq<TurnActionView>,
)
    decreases list.len(),
{
    if list.len() == 0 {
        (Seq::empty(), nothing())
    } else {
        let (front, actions) = drained_all::<T>(list.drop_last(), now);
        let (last, more) = T::drained(list.last(), now);
        (front.push(last), actions + more)
    }
}

/// Runs a frame through start strategies, one after the other.
pub open spec fn started_all<S: StartStrategy>(list: Seq<S::Model>, frame: FrameView) -> (
    Seq<S::Model>,
    Seq<TurnActionView>,
)
    decreases list.len(),
{
    if list.len() == 0 {
        (Seq::empty(), nothing())
    } else {
        let (front, actions) = started_all::<S>(list.drop_last(), frame);
        let (last, more) = S::processed(list.last(), frame);
        (front.push(last), actions + more)
    }
}

/// The reply meant for the stop strategy at a position.
pub open spec fn reply_at(replies: Seq<AnalyzerReplyView>, i: int) -> AnalyzerReplyView {
    if i < replies.len() {
        replies[i]
    } else {
        AnalyzerReplyView::none()
    }
}

/// Runs a frame through stop strategies, one after the other.
pub open spec fn stopped_all<T: StopStrategy>(
    list: Seq<T::Model>,
    frame: FrameView,
    replies: Seq<AnalyzerReplyView>,
    now: u64,
) -> (Seq<T::Model>, Seq<TurnActionView>)
    decreases list.len(),
{
    if list.len() == 0 {
        (Seq::empty(), nothing())
    } else {
        let (front, actions) = stopped_all::<T>(list.drop_last(), frame, replies, now);
        let (last, more) = T::processed(
            list.last(),
            frame,
            reply_at(replies, list.len() - 1),
            now,
        );
        (front.push(last), actions + more)
    }
}

/// The state of a [`UserTurnController`].
pub struct ControllerModel<S: StartStrategy, T: StopStrategy> {
    pub start: Seq<S::Model>,
    pub stop: Seq<T::Model>,
    pub user_turn_stop_timeout: u64,
    /// Whether the user is currently speaking.
    pub user_speaking: bool,
    /// Whether a user turn is currently active.
    pub user_turn: bool,
    /// Whether inactivity is being watched for.
    pub watching: bool,
    /// The global inactivity timer.
    pub timer: TimerModel,
}

impl<S: StartStrategy, T: StopStrategy> ControllerModel<S, T> {
    /// All strategies after their one-time initialization.
    pub open spec fn strategies_prepared(self) -> Self {
        ControllerModel {
            start: self.start.map_values(|m: S::Model| S::prepared(m)),
            stop: self.stop.map_values(|m: T::Model| T::prepared(m)),
            ..self
        }
    }

    /// All strategies after their shutdown.
    pub open spec fn strategies_closed(self) -> Self {
        ControllerModel {
            start: self.start.map_values(|m: S::Model| S::closed(m)),
            stop: self.stop.map_values(|m: T::Model| T::closed(m)),
            ..self
        }
    }

    /// All strategies after a reset.
    pub open spec fn strategies_reset(self) -> Self {
        ControllerModel {
            start: self.start.map_values(|m: S::Model| S::cleared(m)),
            stop: self.stop.map_values(|m: T::Model| T::cleared(m)),
            ..self
        }
    }

    /// The inactivity timer starts anew.
    pub open spec fn active(self, now: u64) -> Self {
        if self.watching {
            ControllerModel { timer: self.timer.started(now, self.user_turn_stop_timeout), ..self }
        } else {
            self
        }
    }

    /// The inactivity timer seen at `now`: if it has run out, it has left a
    /// signal and started anew.
    pub open spec fn watched(self, now: u64) -> Self {
        if self.timer.expired(now) {
            ControllerModel { timer: self.timer.polled(now), ..self }.active(now)
        } else {
            self
        }
    }

    /// The speaking state as a frame reports it.
    pub open spec fn noticed(self, frame: FrameView, now: u64) -> Self {
        match frame {
            FrameView::UserStartedSpeaking
            | FrameView::VADUserStartedSpeaking { .. } => ControllerModel {
                user_speaking: true,
                ..self
            }.active(now),
            FrameView::UserStoppedSpeaking
            | FrameView::VADUserStoppedSpeaking { .. } => ControllerModel {
                user_speaking: false,
                ..self
            }.active(now),
            FrameView::Transcription(_)
            | FrameView::InterimTranscription(_) => self.active(now),
            _ => self,
        }
    }

    /// A turn starts, unless one is active. All strategies are reset: the stop
    /// strategies prepare to detect the stop, and the start strategies don't
    /// fire again for the same turn.
    pub open spec fn turn_start(self, params: UserTurnStartedParams, now: u64) -> (
        Self,
        Seq<TurnActionView>,
    ) {
        if self.user_turn {
            (self, nothing())
        } else {
            (
                ControllerModel { user_turn: true, ..self }.strategies_reset().active(now),
                seq![TurnActionView::UserTurnStarted(params)],
            )
        }
    }

    /// The active turn stops, if there is one. All strategies are reset: the
    /// start strategies prepare to detect the next start, and the stop
    /// strategies don't fire again for the same gap.
    pub open spec fn turn_stop(self, params: UserTurnStoppedParams, now: u64) -> (
        Self,
        Seq<TurnActionView>,
    ) {
        if !self.user_turn {
            (self, nothing())
        } else {
            (
                ControllerModel { user_turn: false, ..self }.strategies_reset().active(now),
                seq![TurnActionView::UserTurnStopped(params)],
            )
        }
    }

    /// Passes actions of start strategies on, in order; turn starts only where
    /// no turn is active.
    pub open spec fn starts_routed(self, actions: Seq<TurnActionView>, now: u64) -> (
        Self,
        Seq<TurnActionView>,
    )
        decreases actions.len(),
    {
        if actions.len() == 0 {
            (self, nothing())
        } else {
            let (c, out) = self.starts_routed(actions.drop_last(), now);
            match actions.last() {
                TurnActionView::UserTurnStarted(params) => {
                    let (c, more) = c.turn_start(params, now);
                    (c, out + more)
                },
                other => (c, out.push(other)),
            }
        }
    }

    /// Passes actions of stop strategies on, in order; turn stops only where a
    /// turn is active.
    pub open spec fn stops_routed(self, actions: Seq<TurnActionView>, now: u64) -> (
        Self,
        Seq<TurnActionView>,
    )
        decreases actions.len(),
    {
        if actions.len() == 0 {
            (self, nothing())
        } else {
            let (c, out) = self.stops_routed(actions.drop_last(), now);
            match actions.last() {
                TurnActionView::UserTurnStopped(params) => {
                    let (c, more) = c.turn_stop(params, now);
                    (c, out + more)
                },
                other => (c, out.push(other)),
            }
        }
    }

    /// The signals of the inactivity timer are taken. They end a turn that is
    /// active while the user is not speaking.
    pub open spec fn timed_out(self, now: u64) -> (Self, Seq<TurnActionView>) {
        let c = ControllerModel { timer: self.timer.drained(), ..self };
        if self.timer.signals > 0 && self.user_turn && !self.user_speaking {
            let params = UserTurnStoppedParams { enable_user_speaking_frames: true };
            (
                c.turn_stop(params, now).0,
                seq![
                    TurnActionView::UserTurnStopTimeout,
                    TurnActionView::UserTurnStopped(params),
                ],
            )
        } else {
            (c, nothing())
        }
    }

    /// What is pending from earlier, so that a turn can stop before a new one
    /// starts with the same frame.
    pub open spec fn settled(self, frame: FrameView, now: u64) -> (Self, Seq<TurnActionView>) {
        let c = self.watched(now).noticed(frame, now);
        let (stop, pending) = drained_all::<T>(c.stop, now);
        let (c, first) = ControllerModel { stop, ..c }.stops_routed(pending, now);
        let (c, second) = c.timed_out(now);
        (c, first + second)
    }

    /// The first part of a frame's processing: all but the stop strategies.
    pub open spec fn begun(self, frame: FrameView, now: u64) -> (Self, Seq<TurnActionView>) {
        let (c, first) = self.settled(frame, now);
        let (start, actions) = started_all::<S>(c.start, frame);
        let (c, second) = ControllerModel { start, ..c }.starts_routed(actions, now);
        (c, first + second)
    }

    /// The second part of a frame's processing: the stop strategies.
    pub open spec fn finished(
        self,
        frame: FrameView,
        replies: Seq<AnalyzerReplyView>,
        now: u64,
    ) -> (Self, Seq<TurnActionView>) {
        let (stop, actions) = stopped_all::<T>(self.stop, frame, replies, now);
        ControllerModel { stop, ..self }.stops_routed(actions, now)
    }
}

/// Orchestrates user turn detection using pluggable start/stop strategies.
///
/// The controller routes frames to all strategies, manages turn state
/// (start/stop with deduplication), and watches for inactivity. It returns the
/// actions that the caller (typically an input transport) is to execute.
///
/// The controller is **not** a frame processor. It is owned by the input
/// transport which hands it each incoming frame.
#[derive(Debug)]
pub struct UserTurnController<S: StartStrategy, T: StopStrategy> {
    strategies: UserTurnStrategies<S, T>,
    user_turn_stop_timeout: u64,
    user_speaking: bool,
    user_turn: bool,
    watching: bool,
    timer: Timer,
}

impl<S: StartStrategy, T: StopStrategy> View for UserTurnController<S, T> {
    type V = ControllerModel<S, T>;

    closed spec fn view(&self) -> ControllerModel<S, T> {
        ControllerModel {
            start: start_models(self.strategies.start@),
            stop: stop_models(self.strategies.stop@),
            user_turn_stop_timeout: self.user_turn_stop_timeout,
            user_speaking: self.user_speaking,
            user_turn: self.user_turn,
            watching: self.watching,
            timer: self.timer@,
        }
    }
}

impl<S: StartStrategy, T: StopStrategy> UserTurnController<S, T> {
    /// Handle a turn stop trigger with double-stop prevention.
    fn trigger_user_turn_stop(&mut self, params: UserTurnStoppedParams, now: u64) -> (r: Vec<
        TurnAction,
    >)
        ensures
            (final(self)@, actions_of(r@)) == old(self)@.turn_stop(params, now),
    {
        if !self.user_turn {
            return no_actions();
        }
        self.user_turn = false;
        self.reset_strategies();
        self.reset_timeout(now);
        one_action(TurnAction::UserTurnStopped(params))
    }

    /// The inactivity timer starts anew.
    fn reset_timeout(&mut self, now: u64)
        ensures
            final(self)@ == old(self)@.active(now),
            final(self).strategies == old(self).strategies,
    {
        if self.watching {
            self.timer.start(now, self.user_turn_stop_timeout);
        }
    }

    /// Create a new controller. Call `setup()` before use.
    pub fn new(strategies: UserTurnStrategies<S, T>, user_turn_stop_timeout: u64) -> (r: Self)
        ensures
            r@ == (ControllerModel::<S, T> {
                start: start_models(strategies.start@),
                stop: stop_models(strategies.stop@),
                user_turn_stop_timeout,
                user_speaking: false,
                user_turn: false,
                watching: false,
                timer: TimerModel::idle(),
            }),
    {
        Self {
            strategies,
            user_turn_stop_timeout,
            user_speaking: false,
            user_turn: false,
            watching: false,
            timer: Timer::new(),
        }
    }

    /// Initialize the controller: start watching for inactivity and set up
    /// strategies.
    pub fn setup(&mut self, now: u64)
        ensures
            final(self)@ == (ControllerModel {
                watching: true,
                timer: TimerModel::idle().started(now, old(self)@.user_turn_stop_timeout),
                ..old(self)@.strategies_prepared()
            }),
    {
        self.watching = true;
        self.timer.cancel();
        self.timer.drain();
        self.timer.start(now, self.user_turn_stop_timeout);
        self.setup_strategies();
    }

    /// Shut down the controller: stop watching and clean up strategies.
    pub fn cleanup(&mut self)
        ensures
            final(self)@ == (ControllerModel {
                watching: false,
                timer: old(self)@.timer.cancelled(),
                ..old(self)@.strategies_closed()
            }),
    {
        self.watching = false;
        self.timer.cancel();
        self.cleanup_strategies();
    }

    /// Replace the current strategies with new ones. The old ones are cleaned
    /// up, and come back for the calls that this asks of their turn analyzers.
    pub fn update_strategies(&mut self, strategies: UserTurnStrategies<S, T>) -> (r:
        UserTurnStrategies<S, T>)
        ensures
            start_models(r.start@) == old(self)@.strategies_closed().start,
            stop_models(r.stop@) == old(self)@.strategies_closed().stop,
            final(self)@ == (ControllerModel {
                start: start_models(strategies.start@),
                stop: stop_models(strategies.stop@),
                ..old(self)@
            }).strategies_prepared(),
    {
        self.cleanup_strategies();
        let mut replaced = strategies;
        std::mem::swap(&mut self.strategies, &mut replaced);
        self.setup_strategies();
        replaced
    }

    fn reset_strategies(&mut self)
        ensures
            final(self)@ == old(self)@.strategies_reset(),
    {
        let ghost mid = self@;
        let ghost start_before = self.strategies.start@;
        let mut i: usize = 0;
        while i < self.strategies.start.len()
            invariant
                i <= self.strategies.start@.len() == start_before.len(),
                forall|j: int|
                    0 <= j < i ==> (#[trigger] self.strategies.start@[j]).model() == S::cleared(
                        start_before[j].model(),
                    ),
                forall|j: int|
                    i <= j < start_before.len() ==> self.strategies.start@[j]
                        == start_before[j],
                self@ == (ControllerModel { start: self@.start, ..mid }),
            decreases self.strategies.start@.len() - i,
        {
            self.strategies.start[i].reset();
            i = i + 1;
        }
        let ghost mid = self@;
        let ghost stop_before = self.strategies.stop@;
        let mut i: usize = 0;
        while i < self.strategies.stop.len()
            invariant
                i <= self.strategies.stop@.len() == stop_before.len(),
                forall|j: int|
                    0 <= j < i ==> (#[trigger] self.strategies.stop@[j]).model() == T::cleared(
                        stop_before[j].model(),
                    ),
                forall|j: int|
                    i <= j < stop_before.len() ==> self.strategies.stop@[j]
                        == stop_before[j],
                self@ == (ControllerModel { stop: self@.stop, ..mid }),
            decreases self.strategies.stop@.len() - i,
        {
            self.strategies.stop[i].reset();
            i = i + 1;
        }
        proof {
            assert(self@.start =~= old(self)@.strategies_reset().start);
            assert(self@.stop =~= old(self)@.strategies_reset().stop);
        }
    }

    fn setup_strategies(&mut self)
        ensures
            final(self)@ == old(self)@.strategies_prepared(),
    {
        let ghost mid = self@;
        let ghost start_before = self.strategies.start@;
        let mut i: usize = 0;
        while i < self.strategies.start.len()
            invariant
                i <= self.strategies.start@.len() == start_before.len(),
                forall|j: int|
                    0 <= j < i ==> (#[trigger] self.strategies.start@[j]).model() == S::prepared(
                        start_before[j].model(),
                    ),
                forall|j: int|
                    i <= j < start_before.len() ==> self.strategies.start@[j]
                        == start_before[j],
                self@ == (ControllerModel { start: self@.start, ..mid }),
            decreases self.strategies.start@.len() - i,
        {
            self.strategies.start[i].setup();
            i = i + 1;
        }
        let ghost mid = self@;
        let ghost stop_before = self.strategies.stop@;
        let mut i: usize = 0;
        while i < self.strategies.stop.len()
            invariant
                i <= self.strategies.stop@.len() == stop_before.len(),
                forall|j: int|
                    0 <= j < i ==> (#[trigger] self.strategies.stop@[j]).model() == T::prepared(
                        stop_before[j].model(),
                    ),
                forall|j: int|
                    i <= j < stop_before.len() ==> self.strategies.stop@[j]
                        == stop_before[j],
                self@ == (ControllerModel { stop: self@.stop, ..mid }),
            decreases self.strategies.stop@.len() - i,
        {
            self.strategies.stop[i].setup();
            i = i + 1;
        }
        proof {
            assert(self@.start =~= old(self)@.strategies_prepared().start);
            assert(self@.stop =~= old(self)@.strategies_prepared().stop);
        }
    }

    fn cleanup_strategies(&mut self)
        ensures
            final(self)@ == old(self)@.strategies_closed(),
    {
        let ghost mid = self@;
        let ghost start_before = self.strategies.start@;
        let mut i: usize = 0;
        while i < self.strategies.start.len()
            invariant
                i <= self.strategies.start@.len() == start_before.len(),
                forall|j: int|
                    0 <= j < i ==> (#[trigger] self.strategies.start@[j]).model() == S::closed(
                        start_before[j].model(),
                    ),
                forall|j: int|
                    i <= j < start_before.len() ==> self.strategies.start@[j]
                        == start_before[j],
                self@ == (ControllerModel { start: self@.start, ..mid }),
            decreases self.strategies.start@.len() - i,
        {
            self.strategies.start[i].cleanup();
            i = i + 1;
        }
        let ghost mid = self@;
        let ghost stop_before = self.strategies.stop@;
        let mut i: usize = 0;
        while i < self.strategies.stop.len()
            invariant
                i <= self.strategies.stop@.len() == stop_before.len(),
                forall|j: int|
                    0 <= j < i ==> (#[trigger] self.strategies.stop@[j]).model() == T::closed(
                        stop_before[j].model(),
                    ),
                forall|j: int|
                    i <= j < stop_before.len() ==> self.strategies.stop@[j]
                        == stop_before[j],
                self@ == (ControllerModel { stop: self@.stop, ..mid }),
            decreases self.strategies.stop@.len() - i,
        {
            self.strategies.stop[i].cleanup();
            i = i + 1;
        }
        proof {
            assert(self@.start =~= old(self)@.strategies_closed().start);
            assert(self@.stop =~= old(self)@.strategies_closed().stop);
        }
    }

    /// When a frame (a wakeup, if there is no other) should next be processed
    /// for the sake of a timer: the earliest deadline of all.
    pub fn next_deadline(&self) -> (r: Option<u64>)
        ensures
            match r {
                Some(t) => (self@.timer.deadline == Some(t) || exists|i: int|
                    0 <= i < self@.stop.len() && T::wakes(#[trigger] self@.stop[i]) == Some(t))
                    && (self@.timer.deadline is Some ==> t <= self@.timer.deadline->0)
                    && forall|i: int|
                    0 <= i < self@.stop.len() && T::wakes(#[trigger] self@.stop[i]) is Some ==> t
                        <= T::wakes(self@.stop[i])->0,
                None => self@.timer.deadline is None && forall|i: int|
                    0 <= i < self@.stop.len() ==> T::wakes(#[trigger] self@.stop[i]) is None,
            },
    {
        let mut earliest: Option<u64> = self.timer.deadline();
        let mut i: usize = 0;
        while i < self.strategies.stop.len()
            invariant
                i <= self.strategies.stop@.len(),
                match earliest {
                    Some(t) => (self@.timer.deadline == Some(t) || exists|j: int|
                        0 <= j < i && T::wakes(#[trigger] self@.stop[j]) == Some(t)) && (
                    self@.timer.deadline is Some ==> t <= self@.timer.deadline->0) && forall|j: int|
                        0 <= j < i && T::wakes(#[trigger] self@.stop[j]) is Some ==> t <= T::wakes(
                            self@.stop[j],
                        )->0,
                    None => self@.timer.deadline is None && forall|j: int|
                        0 <= j < i ==> T::wakes(#[trigger] self@.stop[j]) is None,
                },
            decreases self.strategies.stop@.len() - i,
        {
            let next: Option<u64> = self.strategies.stop[i].next_deadline();
            assert(next == T::wakes(self@.stop[i as int]));
            if let Some(t) = next {
                let sooner = match earliest {
                    Some(e) => t < e,
                    None => true,
                };
                if sooner {
                    earliest = Some(t);
                }
            }
            i = i + 1;
        }
        earliest
    }

    /// Whether a user turn is currently active.
    pub fn is_user_turn(&self) -> (r: bool)
        ensures
            r == self@.user_turn,
    {
        self.user_turn
    }

    /// Whether the user is currently speaking.
    pub fn is_user_speaking(&self) -> (r: bool)
        ensures
            r == self@.user_speaking,
    {
        self.user_speaking
    }

    /// Handle a turn start trigger with double-start prevention.
    fn trigger_user_turn_start(&mut self, params: UserTurnStartedParams, now: u64) -> (r: Vec<
        TurnAction,
    >)
        ensures
            (final(self)@, actions_of(r@)) == old(self)@.turn_start(params, now),
    {
        if self.user_turn {
            return no_actions();
        }
        self.user_turn = true;
        self.reset_strategies();
        self.reset_timeout(now);
        one_action(TurnAction::UserTurnStarted(params))
    }

    /// Passes actions of stop strategies on.
    fn route_stops(&mut self, actions: Vec<TurnAction>, now: u64) -> (r: Vec<TurnAction>)
        ensures
            (final(self)@, actions_of(r@)) == old(self)@.stops_routed(actions_of(actions@), now),
    {
        let ghost all = actions_of(actions@);
        let mut out = no_actions();
        for action in it: actions
            invariant
                actions_of(it.seq()) == all,
                (self@, actions_of(out@)) == old(self)@.stops_routed(
                    all.take(it.index() as int),
                    now,
                ),
        {
            let ghost done = actions_of(out@);
            proof {
                let k = it.index() as int;
                assert(all.take(k + 1).drop_last() =~= all.take(k));
                assert(all.take(k + 1).last() == all[k]);
                assert(all[k] == it.seq()[k]@);
            }
            match action {
                TurnAction::UserTurnStopped(params) => {
                    let more = self.trigger_user_turn_stop(params, now);
                    append_actions(&mut out, more);
                },
                other => {
                    push_action(&mut out, other);
                },
            }
        }
        proof {
            assert(all.take(all.len() as int) =~= all);
        }
        out
    }

    /// Passes actions of start strategies on.
    fn route_starts(&mut self, actions: Vec<TurnAction>, now: u64) -> (r: Vec<TurnAction>)
        ensures
            (final(self)@, actions_of(r@)) == old(self)@.starts_routed(actions_of(actions@), now),
    {
        let ghost all = actions_of(actions@);
        let mut out = no_actions();
        for action in it: actions
            invariant
                actions_of(it.seq()) == all,
                (self@, actions_of(out@)) == old(self)@.starts_routed(
                    all.take(it.index() as int),
                    now,
                ),
        {
            proof {
                let k = it.index() as int;
                assert(all.take(k + 1).drop_last() =~= all.take(k));
                assert(all.take(k + 1).last() == all[k]);
                assert(all[k] == it.seq()[k]@);
            }
            match action {
                TurnAction::UserTurnStarted(params) => {
                    let more = self.trigger_user_turn_start(params, now);
                    append_actions(&mut out, more);
                },
                other => {
                    push_action(&mut out, other);
                },
            }
        }
        proof {
            assert(all.take(all.len() as int) =~= all);
        }
        out
    }

    /// Drain and process the signals of the inactivity timer.
    fn drain_global_timeout_actions(&mut self, now: u64) -> (r: Vec<TurnAction>)
        ensures
            (final(self)@, actions_of(r@)) == old(self)@.timed_out(now),
    {
        let fired = self.timer.take_signal().is_some();
        self.timer.drain();
        let mut actions = no_actions();
        if fired && self.user_turn && !self.user_speaking {
            push_action(&mut actions, TurnAction::UserTurnStopTimeout);
            let more = self.trigger_user_turn_stop(
                UserTurnStoppedParams { enable_user_speaking_frames: true },
                now,
            );
            append_actions(&mut actions, more);
        }
        proof {
            assert(self@.start =~= old(self)@.timed_out(now).0.start);
            assert(actions_of(actions@) =~= old(self)@.timed_out(now).1);
        }
        actions
    }

    /// Takes what is pending in the stop strategies.
    fn drain_stops(&mut self, now: u64) -> (r: Vec<TurnAction>)
        ensures
            ({
                let (stop, actions) = drained_all::<T>(old(self)@.stop, now);
                &&& final(self)@ == ControllerModel { stop, ..old(self)@ }
                &&& actions_of(r@) == actions
            }),
    {
        let ghost before = self.strategies.stop@;
        let ghost models = stop_models(before);
        let mut out = no_actions();
        let mut i: usize = 0;
        while i < self.strategies.stop.len()
            invariant
                i <= self.strategies.stop@.len() == before.len(),
                models == stop_models(before),
                forall|j: int| i <= j < before.len() ==> self.strategies.stop@[j] == before[j],
                (stop_models(self.strategies.stop@.take(i as int)), actions_of(out@))
                    == drained_all::<T>(models.take(i as int), now),
                self@ == (ControllerModel { stop: self@.stop, ..old(self)@ }),
            decreases self.strategies.stop@.len() - i,
        {
            let ghost front = self.strategies.stop@.take(i as int);
            let more = self.strategies.stop[i].drain_pending_actions(now);
            append_actions(&mut out, more);
            i = i + 1;
            proof {
                assert(models.take(i as int).drop_last() =~= models.take(i - 1));
                assert(stop_models(self.strategies.stop@.take(i as int)) =~= stop_models(
                    front,
                ).push(self.strategies.stop@[i - 1].model()));
            }
        }
        proof {
            assert(models.take(models.len() as int) =~= models);
            assert(self.strategies.stop@.take(i as int) =~= self.strategies.stop@);
        }
        out
    }

    /// Runs a frame through the start strategies.
    fn run_starts(&mut self, frame: &Frame) -> (r: Vec<TurnAction>)
        ensures
            ({
                let (start, actions) = started_all::<S>(old(self)@.start, frame@);
                &&& final(self)@ == ControllerModel { start, ..old(self)@ }
                &&& actions_of(r@) == actions
            }),
    {
        let ghost before = self.strategies.start@;
        let ghost models = start_models(before);
        let mut out = no_actions();
        let mut i: usize = 0;
        while i < self.strategies.start.len()
            invariant
                i <= self.strategies.start@.len() == before.len(),
                models == start_models(before),
                forall|j: int| i <= j < before.len() ==> self.strategies.start@[j] == before[j],
                (start_models(self.strategies.start@.take(i as int)), actions_of(out@))
                    == started_all::<S>(models.take(i as int), frame@),
                self@ == (ControllerModel { start: self@.start, ..old(self)@ }),
            decreases self.strategies.start@.len() - i,
        {
            let ghost front = self.strategies.start@.take(i as int);
            let more = self.strategies.start[i].process_frame(frame);
            append_actions(&mut out, more);
            i = i + 1;
            proof {
                assert(models.take(i as int).drop_last() =~= models.take(i - 1));
                assert(start_models(self.strategies.start@.take(i as int)) =~= start_models(
                    front,
                ).push(self.strategies.start@[i - 1].model()));
            }
        }
        proof {
            assert(models.take(models.len() as int) =~= models);
            assert(self.strategies.start@.take(i as int) =~= self.strategies.start@);
        }
        out
    }

    /// Runs a frame through the stop strategies.
    fn run_stops(&mut self, frame: &Frame, replies: Vec<AnalyzerReply>, now: u64) -> (r: Vec<
        TurnAction,
    >)
        ensures
            ({
                let (stop, actions) = stopped_all::<T>(
                    old(self)@.stop,
                    frame@,
                    replies_of(replies@),
                    now,
                );
                &&& final(self)@ == ControllerModel { stop, ..old(self)@ }
                &&& actions_of(r@) == actions
            }),
    {
        let ghost before = self.strategies.stop@;
        let ghost models = stop_models(before);
        let ghost all = replies_of(replies@);
        let mut left = replies;
        let mut out = no_actions();
        let mut i: usize = 0;
        while i < self.strategies.stop.len()
            invariant
                i <= self.strategies.stop@.len() == before.len(),
                models == stop_models(before),
                replies_of(left@) == if i <= all.len() {
                    all.skip(i as int)
                } else {
                    Seq::empty()
                },
                forall|j: int| i <= j < before.len() ==> self.strategies.stop@[j] == before[j],
                (stop_models(self.strategies.stop@.take(i as int)), actions_of(out@))
                    == stopped_all::<T>(models.take(i as int), frame@, all, now),
                self@ == (ControllerModel { stop: self@.stop, ..old(self)@ }),
            decreases self.strategies.stop@.len() - i,
        {
            let ghost front = self.strategies.stop@.take(i as int);
            let ghost waiting = replies_of(left@);
            let reply = if left.len() > 0 {
                let reply = left.remove(0);
                proof {
                    assert(replies_of(left@) =~= waiting.skip(1));
                    assert(reply@ == waiting[0]);
                    assert(waiting.skip(1) =~= all.skip(i + 1));
                }
                reply
            } else {
                proof {
                    assert(waiting.len() == 0);
                    assert(i < all.len() ==> waiting.len() == all.len() - i);
                    assert(replies_of(left@) =~= Seq::empty());
                    assert(i + 1 <= all.len() ==> all.skip(i + 1) =~= Seq::empty());
                }
                AnalyzerReply::none()
            };
            assert(reply@ == reply_at(all, i as int));
            let more = self.strategies.stop[i].process_frame(frame, reply, now);
            append_actions(&mut out, more);
            i = i + 1;
            proof {
                assert(models.take(i as int).drop_last() =~= models.take(i - 1));
                assert(stop_models(self.strategies.stop@.take(i as int)) =~= stop_models(
                    front,
                ).push(self.strategies.stop@[i - 1].model()));
            }
        }
        proof {
            assert(models.take(models.len() as int) =~= models);
            assert(self.strategies.stop@.take(i as int) =~= self.strategies.stop@);
        }
        out
    }

    /// The first part of `process_frame`: everything up to the stop strategies.
    pub fn begin_frame(&mut self, frame: &Frame, now: u64) -> (r: Vec<TurnAction>)
        ensures
            (final(self)@, actions_of(r@)) == old(self)@.begun(frame@, now),
    {
        let expired = match self.timer.deadline() {
            Some(deadline) => deadline <= now,
            None => false,
        };
        if expired {
            self.timer.poll(now);
            self.reset_timeout(now);
        }
        // Track speaking state, and note activity.
        match frame {
            Frame::UserStartedSpeaking | Frame::VADUserStartedSpeaking { .. } => {
                self.user_speaking = true;
                self.reset_timeout(now);
            },
            Frame::UserStoppedSpeaking | Frame::VADUserStoppedSpeaking { .. } => {
                self.user_speaking = false;
                self.reset_timeout(now);
            },
            Frame::Transcription(_) | Frame::InterimTranscription(_) => {
                self.reset_timeout(now);
            },
            _ => {},
        }
        assert(self@ == old(self)@.watched(now).noticed(frame@, now));
        let pending = self.drain_stops(now);
        let mut out = self.route_stops(pending, now);
        let more = self.drain_global_timeout_actions(now);
        append_actions(&mut out, more);
        let started = self.run_starts(frame);
        let more = self.route_starts(started, now);
        append_actions(&mut out, more);
        out
    }

    /// The calls that the stop strategies need on their turn analyzers, one
    /// list for each strategy, once `begin_frame` is done.
    pub fn analyzer_calls(&mut self, frame: &Frame) -> (r: Vec<Vec<AnalyzerCall>>)
        ensures
            r@.len() == old(self)@.stop.len(),
            forall|i: int|
                0 <= i < r@.len() ==> (#[trigger] r@[i])@ == T::asked(
                    old(self)@.stop[i],
                    frame@,
                ).1,
            final(self)@ == (ControllerModel {
                stop: old(self)@.stop.map_values(|m: T::Model| T::asked(m, frame@).0),
                ..old(self)@
            }),
    {
        let ghost before = self.strategies.stop@;
        let mut out: Vec<Vec<AnalyzerCall>> = Vec::new();
        let mut i: usize = 0;
        while i < self.strategies.stop.len()
            invariant
                i <= self.strategies.stop@.len() == before.len(),
                out@.len() == i,
                stop_models(before) == old(self)@.stop,
                forall|j: int|
                    0 <= j < i ==> (#[trigger] out@[j])@ == T::asked(before[j].model(), frame@).1,
                forall|j: int|
                    0 <= j < i ==> (#[trigger] self.strategies.stop@[j]).model() == T::asked(
                        before[j].model(),
                        frame@,
                    ).0,
                forall|j: int| i <= j < before.len() ==> self.strategies.stop@[j] == before[j],
                self@ == (ControllerModel { stop: self@.stop, ..old(self)@ }),
            decreases self.strategies.stop@.len() - i,
        {
            let calls = self.strategies.stop[i].analyzer_calls(frame);
            out.push(calls);
            i = i + 1;
        }
        proof {
            assert(self@.stop =~= old(self)@.stop.map_values(|m: T::Model| T::asked(m, frame@).0));
        }
        out
    }

    /// The second part of `process_frame`: the stop strategies, with the
    /// replies of their turn analyzers in the order of the strategies.
    pub fn finish_frame(&mut self, frame: &Frame, replies: Vec<AnalyzerReply>, now: u64) -> (r: Vec<
        TurnAction,
    >)
        ensures
            (final(self)@, actions_of(r@)) == old(self)@.finished(
                frame@,
                replies_of(replies@),
                now,
            ),
    {
        let stopped = self.run_stops(frame, replies, now);
        self.route_stops(stopped, now)
    }

    /// Process a frame through all strategies and return actions for the
    /// caller. For stop strategies that consult no turn analyzer; with one,
    /// call `begin_frame`, `analyzer_calls` and `finish_frame` in turn.
    pub fn process_frame(&mut self, frame: &Frame, now: u64) -> (r: Vec<TurnAction>)
        ensures
            ({
                let (c, first) = old(self)@.begun(frame@, now);
                let (c, second) = c.finished(frame@, Seq::empty(), now);
                &&& final(self)@ == c
                &&& actions_of(r@) == first + second
            }),
    {
        let mut out = self.begin_frame(frame, now);
        let replies: Vec<AnalyzerReply> = Vec::new();
        proof {
            assert(replies_of(replies@) =~= Seq::empty());
        }
        let more = self.finish_frame(frame, replies, now);
        append_actions(&mut out, more);
        out
    }
}

/// The replies in a list.
pub open spec fn replies_of(s: Seq<AnalyzerReply>) -> Seq<AnalyzerReplyView> {
    s.map_values(|r: AnalyzerReply| r@)
}

} // verus!
