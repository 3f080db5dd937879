//! What turn detection asks the program to do.
use vstd::prelude::*;

use crate::frames::{Direction, Frame, FrameView};
use crate::turns::params::{UserTurnStartedParams, UserTurnStoppedParams};

verus! {

/// Actions produced by strategies and the controller.
///
/// The caller (typically the input transport) is responsible for executing
/// these actions.
#[derive(Debug)]
pub enum TurnAction {
    /// Push a frame in the given direction through the pipeline.
    PushFrame(Frame, Direction),
    /// Broadcast a frame in both directions.
    BroadcastFrame(Frame),
    /// A user turn has started.
    UserTurnStarted(UserTurnStartedParams),
    /// A user turn has stopped.
    UserTurnStopped(UserTurnStoppedParams),
    /// The global user-turn stop timeout fired (informational).
    UserTurnStopTimeout,
}

/// What a [`TurnAction`] says.
pub enum TurnActionView {
    PushFrame(FrameView, Direction),
    BroadcastFrame(FrameView),
    UserTurnStarted(UserTurnStartedParams),
    UserTurnStopped(UserTurnStoppedParams),
    UserTurnStopTimeout,
}

impl View for TurnAction {
    type V = TurnActionView;

    open spec fn view(&self) -> TurnActionView {
        match *self {
            TurnAction::PushFrame(f, d) => TurnActionView::PushFrame(f@, d),
            TurnAction::BroadcastFrame(f) => TurnActionView::BroadcastFrame(f@),
            TurnAction::UserTurnStarted(p) => TurnActionView::UserTurnStarted(p),
            TurnAction::UserTurnStopped(p) => TurnActionView::UserTurnStopped(p),
            TurnAction::UserTurnStopTimeout => TurnActionView::UserTurnStopTimeout,
        }
    }
}

/// The actions in a list.
pub open spec fn actions_of(s: Seq<TurnAction>) -> Seq<TurnActionView> {
    s.map_values(|a: TurnAction| a@)
}

/// No action.
pub open spec fn nothing() -> Seq<TurnActionView> {
    Seq::empty()
}

/// A list with one action.
pub(crate) fn one_action(a: TurnAction) -> (r: Vec<TurnAction>)
    ensures
        actions_of(r@) == seq![a@],
{
    let mut out: Vec<TurnAction> = Vec::new();
    out.push(a);
    proof {
        assert(actions_of(out@) =~= seq![a@]);
    }
    out
}

/// An empty list.
pub(crate) fn no_actions() -> (r: Vec<TurnAction>)
    ensures
        actions_of(r@) == nothing(),
{
    let out: Vec<TurnAction> = Vec::new();
    proof {
        assert(actions_of(out@) =~= nothing());
    }
    out
}

/// Adds an action at the end of a list.
pub(crate) fn push_action(list: &mut Vec<TurnAction>, a: TurnAction)
    ensures
        actions_of(final(list)@) == actions_of(old(list)@).push(a@),
{
    list.push(a);
    proof {
        assert(actions_of(list@) =~= actions_of(old(list)@).push(a@));
    }
}

/// Moves the actions of one list to the end of another.
pub(crate) fn append_actions(list: &mut Vec<TurnAction>, mut more: Vec<TurnAction>)
    ensures
        actions_of(final(list)@) == actions_of(old(list)@) + actions_of(more@),
{
    let ghost added = more@;
    list.append(&mut more);
    proof {
        assert(actions_of(list@) =~= actions_of(old(list)@) + actions_of(added));
    }
}

} // verus!
