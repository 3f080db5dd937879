//! Strategies that detect the start of a user turn.
pub mod external;
pub mod min_words;
pub mod transcription;
pub mod vad;

pub use external::ExternalUserTurnStartStrategy;
pub use min_words::MinWordsUserTurnStartStrategy;
pub use transcription::TranscriptionUserTurnStartStrategy;
pub use vad::VadUserTurnStartStrategy;

use vstd::prelude::*;

use crate::frames::{Frame, FrameView};
use crate::turns::action::{actions_of, TurnAction, TurnActionView};

verus! {

/// Strategies that detect when a user starts a speaking turn.
///
/// Strategies return a list of actions from `process_frame`. To signal that a
/// turn has started, return `TurnAction::UserTurnStarted(params)`. The
/// controller handles deduplication (double-start prevention).
pub trait StartStrategy: Sized {
    /// The state of the strategy.
    type Model;

    spec fn model(&self) -> Self::Model;

    /// The state after a frame, and the actions that the frame calls for.
    spec fn processed(pre: Self::Model, frame: FrameView) -> (Self::Model, Seq<TurnActionView>);

    /// The state after a reset.
    spec fn cleared(pre: Self::Model) -> Self::Model;

    /// The state after one-time initialization.
    spec fn prepared(pre: Self::Model) -> Self::Model;

    /// The state after shutdown.
    spec fn closed(pre: Self::Model) -> Self::Model;

    spec fn interrupts(pre: Self::Model) -> bool;

    spec fn speaks(pre: Self::Model) -> bool;

    /// Process an incoming frame. Returns actions to execute.
    fn process_frame(&mut self, frame: &Frame) -> (r: Vec<TurnAction>)
        ensures
            (final(self).model(), actions_of(r@)) == Self::processed(old(self).model(), frame@),
    ;

    /// Reset the strategy to its initial state. Called when a user turn stops
    /// (preparing to detect the next start), and when one starts (so that the
    /// strategy doesn't fire again for it).
    fn reset(&mut self)
        ensures
            final(self).model() == Self::cleared(old(self).model()),
    ;

    /// One-time initialization.
    fn setup(&mut self)
        ensures
            final(self).model() == Self::prepared(old(self).model()),
    ;

    /// Shutdown cleanup.
    fn cleanup(&mut self)
        ensures
            final(self).model() == Self::closed(old(self).model()),
    ;

    /// Whether this strategy enables interruptions when it triggers.
    fn enable_interruptions(&self) -> (r: bool)
        ensures
            r == Self::interrupts(self.model()),
    ;

    /// Whether this strategy enables user speaking frames when it triggers.
    fn enable_user_speaking_frames(&self) -> (r: bool)
        ensures
            r == Self::speaks(self.model()),
    ;
}

} // verus!
