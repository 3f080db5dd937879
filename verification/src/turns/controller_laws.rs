//! What the controller makes of what its strategies say.
use vstd::prelude::*;

use crate::frames::FrameView;
use crate::runs::{gathered, lemma_gathered_concat, lemma_gathered_few};
use crate::turns::action::TurnActionView;
use crate::turns::controller::{
    drained_all, started_all, stopped_all, ControllerModel,
};
use crate::turns::params::{UserTurnStartedParams, UserTurnStoppedParams};
use crate::turns::start::StartStrategy;
use crate::turns::stop::{AnalyzerReplyView, StopStrategy};

verus! {

/// The turn that an action starts.
pub open spec fn start_of(a: TurnActionView) -> Seq<UserTurnStartedParams> {
    match a {
        TurnActionView::UserTurnStarted(p) => seq![p],
        _ => Seq::empty(),
    }
}

/// The turn that an action stops.
pub open spec fn stop_of(a: TurnActionView) -> Seq<UserTurnStoppedParams> {
    match a {
        TurnActionView::UserTurnStopped(p) => seq![p],
        _ => Seq::empty(),
    }
}

/// An action that starts no turn.
pub open spec fn besides_start(a: TurnActionView) -> Seq<TurnActionView> {
    match a {
        TurnActionView::UserTurnStarted(_) => Seq::empty(),
        other => seq![other],
    }
}

/// An action that stops no turn.
pub open spec fn besides_stop(a: TurnActionView) -> Seq<TurnActionView> {
    match a {
        TurnActionView::UserTurnStopped(_) => Seq::empty(),
        other => seq![other],
    }
}

/// The first of a list, if there is one.
pub open spec fn first_of<A>(s: Seq<A>) -> Seq<A> {
    if s.len() == 0 {
        s
    } else {
        seq![s[0]]
    }
}

/// Of the starts that strategies report with a frame, the first one starts a
/// turn, with its own settings, if none is active; the others count for nothing.
/// What else they ask for is passed on, in order and as it is.
pub proof fn lemma_first_start_counts<S: StartStrategy, T: StopStrategy>(
    c: ControllerModel<S, T>,
    actions: Seq<TurnActionView>,
    now: u64,
)
    ensures
        ({
            let (after, out) = c.starts_routed(actions, now);
            let asked = gathered(actions, |a: TurnActionView| start_of(a));
            &&& gathered(out, |a: TurnActionView| start_of(a)) == if c.user_turn {
                Seq::empty()
            } else {
                first_of(asked)
            }
            &&& gathered(out, |a: TurnActionView| besides_start(a)) == gathered(
                actions,
                |a: TurnActionView| besides_start(a),
            )
            &&& after.user_turn == (c.user_turn || asked.len() > 0)
            &&& after.user_speaking == c.user_speaking
        }),
    decreases actions.len(),
{
    let f = |a: TurnActionView| start_of(a);
    let g = |a: TurnActionView| besides_start(a);
    if actions.len() == 0 {
        let out = c.starts_routed(actions, now).1;
        assert(gathered(out, f) =~= if c.user_turn {
            Seq::empty()
        } else {
            first_of(gathered(actions, f))
        });
    } else {
        let front = actions.drop_last();
        lemma_first_start_counts(c, front, now);
        let (mid, out) = c.starts_routed(front, now);
        let asked = gathered(front, f);
        let all = gathered(actions, f);
        match actions.last() {
            TurnActionView::UserTurnStarted(p) => {
                let more = mid.turn_start(p, now).1;
                lemma_gathered_few(more, f);
                lemma_gathered_few(more, g);
                lemma_gathered_concat(out, more, f);
                lemma_gathered_concat(out, more, g);
                assert(all == asked + seq![p]);
                assert(gathered(out + more, f) =~= if c.user_turn {
                    Seq::empty()
                } else {
                    first_of(all)
                });
                assert(gathered(out + more, g) =~= gathered(actions, g));
            },
            other => {
                let more = seq![other];
                assert(out.push(other) =~= out + more);
                lemma_gathered_few(more, f);
                lemma_gathered_few(more, g);
                lemma_gathered_concat(out, more, f);
                lemma_gathered_concat(out, more, g);
                assert(all =~= asked);
                assert(gathered(out + more, f) =~= gathered(out, f));
                assert(gathered(out + more, g) =~= gathered(actions, g));
            },
        }
    }
}

/// Of the stops that strategies report, the first one stops the turn that is
/// active, with its own settings; without one none counts. What else they ask for
/// is passed on, in order and as it is.
pub proof fn lemma_first_stop_counts<S: StartStrategy, T: StopStrategy>(
    c: ControllerModel<S, T>,
    actions: Seq<TurnActionView>,
    now: u64,
)
    ensures
        ({
            let (after, out) = c.stops_routed(actions, now);
            let asked = gathered(actions, |a: TurnActionView| stop_of(a));
            &&& gathered(out, |a: TurnActionView| stop_of(a)) == if !c.user_turn {
                Seq::empty()
            } else {
                first_of(asked)
            }
            &&& gathered(out, |a: TurnActionView| besides_stop(a)) == gathered(
                actions,
                |a: TurnActionView| besides_stop(a),
            )
            &&& after.user_turn == (c.user_turn && asked.len() == 0)
            &&& after.user_speaking == c.user_speaking
        }),
    decreases actions.len(),
{
    let f = |a: TurnActionView| stop_of(a);
    let g = |a: TurnActionView| besides_stop(a);
    if actions.len() == 0 {
        let out = c.stops_routed(actions, now).1;
        assert(gathered(out, f) =~= if !c.user_turn {
            Seq::empty()
        } else {
            first_of(gathered(actions, f))
        });
    } else {
        let front = actions.drop_last();
        lemma_first_stop_counts(c, front, now);
        let (mid, out) = c.stops_routed(front, now);
        let asked = gathered(front, f);
        let all = gathered(actions, f);
        match actions.last() {
            TurnActionView::UserTurnStopped(p) => {
                let more = mid.turn_stop(p, now).1;
                lemma_gathered_few(more, f);
                lemma_gathered_few(more, g);
                lemma_gathered_concat(out, more, f);
                lemma_gathered_concat(out, more, g);
                assert(all == asked + seq![p]);
                assert(gathered(out + more, f) =~= if !c.user_turn {
                    Seq::empty()
                } else {
                    first_of(all)
                });
                assert(gathered(out + more, g) =~= gathered(actions, g));
            },
            other => {
                let more = seq![other];
                assert(out.push(other) =~= out + more);
                lemma_gathered_few(more, f);
                lemma_gathered_few(more, g);
                lemma_gathered_concat(out, more, f);
                lemma_gathered_concat(out, more, g);
                assert(all =~= asked);
                assert(gathered(out + more, f) =~= gathered(out, f));
                assert(gathered(out + more, g) =~= gathered(actions, g));
            },
        }
    }
}

/// The places of a list, first to last.
pub open spec fn places(n: nat) -> Seq<int> {
    Seq::new(n, |i: int| i)
}

/// Every start strategy sees every frame, in its own state, and what they ask for
/// comes in their order.
pub proof fn lemma_all_start_strategies_see_a_frame<S: StartStrategy>(
    list: Seq<S::Model>,
    frame: FrameView,
)
    ensures
        ({
            let (after, actions) = started_all::<S>(list, frame);
            &&& after.len() == list.len()
            &&& forall|i: int|
                0 <= i < list.len() ==> #[trigger] after[i] == S::processed(list[i], frame).0
            &&& actions == gathered(
                places(list.len()),
                |i: int| S::processed(list[i], frame).1,
            )
        }),
    decreases list.len(),
{
    let f = |i: int| S::processed(list[i], frame).1;
    if list.len() == 0 {
        assert(started_all::<S>(list, frame).1 =~= gathered(places(0), f));
    } else {
        let front = list.drop_last();
        lemma_all_start_strategies_see_a_frame::<S>(front, frame);
        let g = |i: int| S::processed(front[i], frame).1;
        assert(places(list.len()).drop_last() =~= places(front.len()));
        lemma_same_gathered(places(front.len()), f, g);
    }
}

/// Functions that agree on a sequence bring the same of it.
proof fn lemma_same_gathered<A, B>(s: Seq<A>, f: spec_fn(A) -> Seq<B>, g: spec_fn(A) -> Seq<B>)
    requires
        forall|i: int| 0 <= i < s.len() ==> f(#[trigger] s[i]) == g(s[i]),
    ensures
        gathered(s, f) == gathered(s, g),
    decreases s.len(),
{
    if s.len() > 0 {
        let front = s.drop_last();
        assert forall|i: int| 0 <= i < front.len() implies f(#[trigger] front[i]) == g(
            front[i],
        ) by {
            assert(f(s[i]) == g(s[i]));
        }
        lemma_same_gathered(front, f, g);
        assert(f(s[s.len() - 1]) == g(s[s.len() - 1]));
    }
}

/// What an analyzer said for the strategy at a place: what came back for it, or
/// nothing where no call was made.
pub open spec fn said_for(replies: Seq<AnalyzerReplyView>, i: int) -> AnalyzerReplyView {
    if 0 <= i < replies.len() {
        replies[i]
    } else {
        AnalyzerReplyView::none()
    }
}

/// Every stop strategy sees every frame, with what its own analyzer said, and is
/// asked for what has become due; what they ask for comes in their order.
pub proof fn lemma_all_stop_strategies_see_a_frame<T: StopStrategy>(
    list: Seq<T::Model>,
    frame: FrameView,
    replies: Seq<AnalyzerReplyView>,
    now: u64,
)
    ensures
        ({
            let (after, actions) = stopped_all::<T>(list, frame, replies, now);
            &&& after.len() == list.len()
            &&& forall|i: int|
                0 <= i < list.len() ==> #[trigger] after[i] == T::processed(
                    list[i],
                    frame,
                    said_for(replies, i),
                    now,
                ).0
            &&& actions == gathered(
                places(list.len()),
                |i: int| T::processed(list[i], frame, said_for(replies, i), now).1,
            )
        }),
        ({
            let (after, actions) = drained_all::<T>(list, now);
            &&& after.len() == list.len()
            &&& forall|i: int|
                0 <= i < list.len() ==> #[trigger] after[i] == T::drained(list[i], now).0
            &&& actions == gathered(places(list.len()), |i: int| T::drained(list[i], now).1)
        }),
    decreases list.len(),
{
    let f = |i: int| T::processed(list[i], frame, said_for(replies, i), now).1;
    let d = |i: int| T::drained(list[i], now).1;
    if list.len() == 0 {
        assert(stopped_all::<T>(list, frame, replies, now).1 =~= gathered(places(0), f));
        assert(drained_all::<T>(list, now).1 =~= gathered(places(0), d));
    } else {
        let front = list.drop_last();
        lemma_all_stop_strategies_see_a_frame::<T>(front, frame, replies, now);
        assert(places(list.len()).drop_last() =~= places(front.len()));
        lemma_same_gathered(
            places(front.len()),
            f,
            |i: int| T::processed(front[i], frame, said_for(replies, i), now).1,
        );
        lemma_same_gathered(places(front.len()), d, |i: int| T::drained(front[i], now).1);
    }
}

/// Inactivity that is watched for ends a turn exactly where the time since the
/// last activity has reached the timeout, a turn is active and the user does not
/// speak. The end is told first as a timeout and then as a stop.
pub proof fn lemma_inactivity_ends_a_turn<S: StartStrategy, T: StopStrategy>(
    c: ControllerModel<S, T>,
    t: u64,
    now: u64,
)
    requires
        c.watching,
        c.timer.signals == 0,
        t <= now < u64::MAX,
    ensures
        ({
            let (after, actions) = c.active(t).watched(now).timed_out(now);
            let over = now - t >= c.user_turn_stop_timeout && c.user_turn && !c.user_speaking;
            &&& over ==> {
                &&& actions.len() == 2
                &&& actions[0] is UserTurnStopTimeout
                &&& actions[1] matches TurnActionView::UserTurnStopped(p)
                    && p.enable_user_speaking_frames
                &&& !after.user_turn
            }
            &&& !over ==> actions.len() == 0 && after.user_turn == c.user_turn
            &&& after.timer.signals == 0
            &&& after.user_speaking == c.user_speaking
        }),
{
}

/// A frame first lets what is pending end the turn, then lets start strategies
/// start one, and last lets stop strategies end it: what each step asks for comes
/// in that order, and the turn that the first of the starts begins is there
/// exactly where none was left active.
pub proof fn lemma_frames_end_turns_before_they_start_them<S: StartStrategy, T: StopStrategy>(
    c: ControllerModel<S, T>,
    frame: FrameView,
    replies: Seq<AnalyzerReplyView>,
    now: u64,
)
    ensures
        ({
            let (settled, first) = c.settled(frame, now);
            let (after, actions) = c.begun(frame, now);
            let rest = actions.skip(first.len() as int);
            let asked = gathered(
                started_all::<S>(settled.start, frame).1,
                |a: TurnActionView| start_of(a),
            );
            &&& actions.take(first.len() as int) == first
            &&& gathered(rest, |a: TurnActionView| start_of(a)) == if settled.user_turn {
                Seq::empty()
            } else {
                first_of(asked)
            }
            &&& after.user_turn == (settled.user_turn || asked.len() > 0)
        }),
        ({
            let (after, actions) = c.finished(frame, replies, now);
            let asked = gathered(
                stopped_all::<T>(c.stop, frame, replies, now).1,
                |a: TurnActionView| stop_of(a),
            );
            &&& gathered(actions, |a: TurnActionView| stop_of(a)) == if c.user_turn {
                first_of(asked)
            } else {
                Seq::empty()
            }
            &&& after.user_turn == (c.user_turn && asked.len() == 0)
        }),
{
    let (settled, first) = c.settled(frame, now);
    let (start, asked) = started_all::<S>(settled.start, frame);
    let mid = ControllerModel::<S, T> { start, ..settled };
    lemma_first_start_counts(mid, asked, now);
    let second = mid.starts_routed(asked, now).1;
    let actions = c.begun(frame, now).1;
    assert(actions.take(first.len() as int) =~= first);
    assert(actions.skip(first.len() as int) =~= second);
    let (stop, ends) = stopped_all::<T>(c.stop, frame, replies, now);
    lemma_first_stop_counts(ControllerModel::<S, T> { stop, ..c }, ends, now);
}

/// Whether the user speaks, as the last frame about it says.
pub open spec fn speaking_after(before: bool, frames: Seq<FrameView>) -> bool
    decreases frames.len(),
{
    if frames.len() == 0 {
        before
    } else {
        match frames.last() {
            FrameView::UserStartedSpeaking => true,
            FrameView::VADUserStartedSpeaking { .. } => true,
            FrameView::UserStoppedSpeaking => false,
            FrameView::VADUserStoppedSpeaking { .. } => false,
            _ => speaking_after(before, frames.drop_last()),
        }
    }
}

impl<S: StartStrategy, T: StopStrategy> ControllerModel<S, T> {
    /// The controller after it has noticed a run of frames.
    pub open spec fn all_noticed(self, frames: Seq<FrameView>, now: u64) -> Self
        decreases frames.len(),
    {
        if frames.len() == 0 {
            self
        } else {
            self.all_noticed(frames.drop_last(), now).noticed(frames.last(), now)
        }
    }
}

/// The controller knows whether the user speaks, by whatever frame last told.
/// Speech and transcriptions count as activity, and nothing else does.
pub proof fn lemma_speaking_is_noticed<S: StartStrategy, T: StopStrategy>(
    c: ControllerModel<S, T>,
    frames: Seq<FrameView>,
    now: u64,
    frame: FrameView,
)
    ensures
        c.all_noticed(frames, now).user_speaking == speaking_after(c.user_speaking, frames),
        c.all_noticed(frames, now).user_turn == c.user_turn,
        ({
            let counts = frame is UserStartedSpeaking || frame is VADUserStartedSpeaking
                || frame is UserStoppedSpeaking || frame is VADUserStoppedSpeaking
                || frame is Transcription || frame is InterimTranscription;
            &&& counts && c.watching && now + c.user_turn_stop_timeout <= u64::MAX ==> c.noticed(
                frame,
                now,
            ).timer.deadline == Some((now + c.user_turn_stop_timeout) as u64)
            &&& !counts ==> c.noticed(frame, now) == c
        }),
    decreases frames.len(),
{
    if frames.len() > 0 {
        lemma_speaking_is_noticed(c, frames.drop_last(), now, frame);
    }
}

} // verus!
