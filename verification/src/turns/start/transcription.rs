//! Turn starts from transcriptions.
use vstd::prelude::*;

use crate::frames::{Frame, FrameView};
use crate::turns::action::{no_actions, nothing, one_action, TurnAction, TurnActionView};
use crate::turns::params::UserTurnStartedParams;
use crate::turns::start::StartStrategy;

verus! {

/// Triggers a user turn start when transcription (final or interim) is received.
///
/// Acts as a fallback when voice activity detection doesn't hear speech but
/// speech recognition produces results.
#[derive(Debug)]
pub struct TranscriptionUserTurnStartStrategy {
    enable_interruptions: bool,
    enable_user_speaking_frames: bool,
    use_interim: bool,
}

/// The settings of a [`TranscriptionUserTurnStartStrategy`].
pub struct TranscriptionStartModel {
    pub enable_interruptions: bool,
    pub enable_user_speaking_frames: bool,
    pub use_interim: bool,
}

impl TranscriptionUserTurnStartStrategy {
    pub fn new() -> (r: Self)
        ensures
            r.model() == (TranscriptionStartModel {
                enable_interruptions: true,
                enable_user_speaking_frames: true,
                use_interim: true,
            }),
    {
        Self { enable_interruptions: true, enable_user_speaking_frames: true, use_interim: true }
    }

    pub fn with_options(
        enable_interruptions: bool,
        enable_user_speaking_frames: bool,
        use_interim: bool,
    ) -> (r: Self)
        ensures
            r.model() == (TranscriptionStartModel {
                enable_interruptions,
                enable_user_speaking_frames,
                use_interim,
            }),
    {
        Self { enable_interruptions, enable_user_speaking_frames, use_interim }
    }
}

impl Default for TranscriptionUserTurnStartStrategy {
    fn default() -> (r: Self)
        ensures
            r.model() == (TranscriptionStartModel {
                enable_interruptions: true,
                enable_user_speaking_frames: true,
                use_interim: true,
            }),
    {
        Self::new()
    }
}

impl StartStrategy for TranscriptionUserTurnStartStrategy {
    type Model = TranscriptionStartModel;

    closed spec fn model(&self) -> TranscriptionStartModel {
        TranscriptionStartModel {
            enable_interruptions: self.enable_interruptions,
            enable_user_speaking_frames: self.enable_user_speaking_frames,
            use_interim: self.use_interim,
        }
    }

    open spec fn processed(pre: TranscriptionStartModel, frame: FrameView) -> (
        TranscriptionStartModel,
        Seq<TurnActionView>,
    ) {
        (
            pre,
            if frame is Transcription || (frame is InterimTranscription && pre.use_interim) {
                seq![
                    TurnActionView::UserTurnStarted(
                        UserTurnStartedParams {
                            enable_interruptions: pre.enable_interruptions,
                            enable_user_speaking_frames: pre.enable_user_speaking_frames,
                        },
                    ),
                ]
            } else {
                nothing()
            },
        )
    }

    open spec fn cleared(pre: TranscriptionStartModel) -> TranscriptionStartModel {
        pre
    }

    open spec fn prepared(pre: TranscriptionStartModel) -> TranscriptionStartModel {
        pre
    }

    open spec fn closed(pre: TranscriptionStartModel) -> TranscriptionStartModel {
        pre
    }

    open spec fn interrupts(pre: TranscriptionStartModel) -> bool {
        pre.enable_interruptions
    }

    open spec fn speaks(pre: TranscriptionStartModel) -> bool {
        pre.enable_user_speaking_frames
    }

    fn process_frame(&mut self, frame: &Frame) -> (r: Vec<TurnAction>) {
        let should_trigger = match frame {
            Frame::InterimTranscription(_) => self.use_interim,
            Frame::Transcription(_) => true,
            _ => false,
        };
        if should_trigger {
            one_action(
                TurnAction::UserTurnStarted(
                    UserTurnStartedParams {
                        enable_interruptions: self.enable_interruptions,
                        enable_user_speaking_frames: self.enable_user_speaking_frames,
                    },
                ),
            )
        } else {
            no_actions()
        }
    }

    fn reset(&mut self) {
    }

    fn setup(&mut self) {
    }

    fn cleanup(&mut self) {
    }

    fn enable_interruptions(&self) -> (r: bool) {
        self.enable_interruptions
    }

    fn enable_user_speaking_frames(&self) -> (r: bool) {
        self.enable_user_speaking_frames
    }
}

} // verus!
