//! Turn starts reported by an external service.
use vstd::prelude::*;

use crate::frames::{Frame, FrameView};
use crate::turns::action::{no_actions, nothing, one_action, TurnAction, TurnActionView};
use crate::turns::params::UserTurnStartedParams;
use crate::turns::start::StartStrategy;

verus! {

/// Triggers a user turn start from an external `UserStartedSpeaking` frame.
///
/// Used when an external service provides speaking detection instead of voice
/// activity detection. `enable_interruptions` and `enable_user_speaking_frames`
/// are always false since the external service handles those concerns.
#[derive(Debug)]
pub struct ExternalUserTurnStartStrategy;

impl ExternalUserTurnStartStrategy {
    pub fn new() -> (r: Self)
        ensures
            r == ExternalUserTurnStartStrategy,
    {
        Self
    }
}

impl Default for ExternalUserTurnStartStrategy {
    fn default() -> (r: Self)
        ensures
            r == ExternalUserTurnStartStrategy,
    {
        Self::new()
    }
}

impl StartStrategy for ExternalUserTurnStartStrategy {
    type Model = ();

    open spec fn model(&self) -> () {
        ()
    }

    open spec fn processed(pre: (), frame: FrameView) -> ((), Seq<TurnActionView>) {
        (
            (),
            if frame is UserStartedSpeaking {
                seq![
                    TurnActionView::UserTurnStarted(
                        UserTurnStartedParams {
                            enable_interruptions: false,
                            enable_user_speaking_frames: false,
                        },
                    ),
                ]
            } else {
                nothing()
            },
        )
    }

    open spec fn cleared(pre: ()) -> () {
        ()
    }

    open spec fn prepared(pre: ()) -> () {
        ()
    }

    open spec fn closed(pre: ()) -> () {
        ()
    }

    open spec fn interrupts(pre: ()) -> bool {
        false
    }

    open spec fn speaks(pre: ()) -> bool {
        false
    }

    fn process_frame(&mut self, frame: &Frame) -> (r: Vec<TurnAction>) {
        if matches!(frame, Frame::UserStartedSpeaking) {
            one_action(
                TurnAction::UserTurnStarted(
                    UserTurnStartedParams {
                        enable_interruptions: false,
                        enable_user_speaking_frames: false,
                    },
                ),
            )
        } else {
            no_actions()
        }
    }

    fn reset(&mut self) {
    }

    fn setup(&mut self) {
    }

    fn cleanup(&mut self) {
    }

    fn enable_interruptions(&self) -> (r: bool) {
        false
    }

    fn enable_user_speaking_frames(&self) -> (r: bool) {
        false
    }
}

} // verus!
