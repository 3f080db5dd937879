//! Turn starts from voice activity detection.
use vstd::prelude::*;

use crate::frames::{Frame, FrameView};
use crate::turns::action::{no_actions, nothing, one_action, TurnAction, TurnActionView};
use crate::turns::params::UserTurnStartedParams;
use crate::turns::start::StartStrategy;

verus! {

/// Triggers a user turn start immediately when voice activity detection hears
/// speech.
#[derive(Debug)]
pub struct VadUserTurnStartStrategy {
    enable_interruptions: bool,
    enable_user_speaking_frames: bool,
}

/// The settings of a [`VadUserTurnStartStrategy`].
pub struct VadStartModel {
    pub enable_interruptions: bool,
    pub enable_user_speaking_frames: bool,
}

impl VadUserTurnStartStrategy {
    pub fn new() -> (r: Self)
        ensures
            r.model() == (VadStartModel {
                enable_interruptions: true,
                enable_user_speaking_frames: true,
            }),
    {
        Self { enable_interruptions: true, enable_user_speaking_frames: true }
    }

    pub fn with_options(enable_interruptions: bool, enable_user_speaking_frames: bool) -> (r: Self)
        ensures
            r.model() == (VadStartModel { enable_interruptions, enable_user_speaking_frames }),
    {
        Self { enable_interruptions, enable_user_speaking_frames }
    }
}

impl Default for VadUserTurnStartStrategy {
    fn default() -> (r: Self)
        ensures
            r.model() == (VadStartModel {
                enable_interruptions: true,
                enable_user_speaking_frames: true,
            }),
    {
        Self::new()
    }
}

impl StartStrategy for VadUserTurnStartStrategy {
    type Model = VadStartModel;

    closed spec fn model(&self) -> VadStartModel {
        VadStartModel {
            enable_interruptions: self.enable_interruptions,
            enable_user_speaking_frames: self.enable_user_speaking_frames,
        }
    }

    open spec fn processed(pre: VadStartModel, frame: FrameView) -> (
        VadStartModel,
        Seq<TurnActionView>,
    ) {
        (
            pre,
            if frame is VADUserStartedSpeaking {
                seq![
                    TurnActionView::UserTurnStarted(
                        UserTurnStartedParams {
                            enable_interruptions: pre.enable_interruptions,
                            enable_user_speaking_frames: pre.enable_user_speaking_frames,
                        },
                    ),
                ]
            } else {
                nothing()
            },
        )
    }

    open spec fn cleared(pre: VadStartModel) -> VadStartModel {
        pre
    }

    open spec fn prepared(pre: VadStartModel) -> VadStartModel {
        pre
    }

    open spec fn closed(pre: VadStartModel) -> VadStartModel {
        pre
    }

    open spec fn interrupts(pre: VadStartModel) -> bool {
        pre.enable_interruptions
    }

    open spec fn speaks(pre: VadStartModel) -> bool {
        pre.enable_user_speaking_frames
    }

    fn process_frame(&mut self, frame: &Frame) -> (r: Vec<TurnAction>) {
        if matches!(frame, Frame::VADUserStartedSpeaking { .. }) {
            one_action(
                TurnAction::UserTurnStarted(
                    UserTurnStartedParams {
                        enable_interruptions: self.enable_interruptions,
                        enable_user_speaking_frames: self.enable_user_speaking_frames,
                    },
                ),
            )
        } else {
            no_actions()
        }
    }

    fn reset(&mut self) {
    }

    fn setup(&mut self) {
    }

    fn cleanup(&mut self) {
    }

    fn enable_interruptions(&self) -> (r: bool) {
        self.enable_interruptions
    }

    fn enable_user_speaking_frames(&self) -> (r: bool) {
        self.enable_user_speaking_frames
    }
}

} // verus!
