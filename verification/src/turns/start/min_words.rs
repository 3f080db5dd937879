//! Turn starts from a number of words.
use vstd::prelude::*;

use crate::text::{count_words, word_count};
use crate::frames::{Frame, FrameView};
use crate::turns::action::{actions_of, no_actions, nothing, one_action, TurnAction, TurnActionView};
use crate::turns::params::UserTurnStartedParams;
use crate::turns::start::StartStrategy;

verus! {

/// Requires a minimum word count in transcription before triggering a turn
/// start.
///
/// When the bot is speaking, requires `min_words` to interrupt. When the bot
/// is not speaking, requires only 1 word. This allows tuning the interruption
/// threshold separately from the normal turn-start threshold.
#[derive(Debug)]
pub struct MinWordsUserTurnStartStrategy {
    enable_interruptions: bool,
    enable_user_speaking_frames: bool,
    min_words: usize,
    use_interim: bool,
    bot_speaking: bool,
}

/// The state of a [`MinWordsUserTurnStartStrategy`].
pub struct MinWordsStartModel {
    pub enable_interruptions: bool,
    pub enable_user_speaking_frames: bool,
    pub min_words: usize,
    pub use_interim: bool,
    pub bot_speaking: bool,
}

impl MinWordsStartModel {
    /// How many words start a turn.
    pub open spec fn threshold(self) -> nat {
        if self.bot_speaking {
            self.min_words as nat
        } else {
            1
        }
    }

    /// The actions that a transcription calls for.
    pub open spec fn checked(self, text: Seq<char>) -> Seq<TurnActionView> {
        if word_count(text) >= self.threshold() {
            seq![
                TurnActionView::UserTurnStarted(
                    UserTurnStartedParams {
                        enable_interruptions: self.enable_interruptions,
                        enable_user_speaking_frames: self.enable_user_speaking_frames,
                    },
                ),
            ]
        } else {
            nothing()
        }
    }
}

impl MinWordsUserTurnStartStrategy {
    pub fn new(min_words: usize) -> (r: Self)
        ensures
            r.model() == (MinWordsStartModel {
                enable_interruptions: true,
                enable_user_speaking_frames: true,
                min_words,
                use_interim: true,
                bot_speaking: false,
            }),
    {
        Self {
            enable_interruptions: true,
            enable_user_speaking_frames: true,
            min_words,
            use_interim: true,
            bot_speaking: false,
        }
    }

    pub fn with_options(
        min_words: usize,
        use_interim: bool,
        enable_interruptions: bool,
        enable_user_speaking_frames: bool,
    ) -> (r: Self)
        ensures
            r.model() == (MinWordsStartModel {
                enable_interruptions,
                enable_user_speaking_frames,
                min_words,
                use_interim,
                bot_speaking: false,
            }),
    {
        Self {
            enable_interruptions,
            enable_user_speaking_frames,
            min_words,
            use_interim,
            bot_speaking: false,
        }
    }

    /// Whether the bot is speaking, as far as frames have told.
    pub fn bot_speaking(&self) -> (r: bool)
        ensures
            r == self.model().bot_speaking,
    {
        self.bot_speaking
    }

    fn check_words(&self, text: &str) -> (r: Vec<TurnAction>)
        ensures
            actions_of(r@) == self.model().checked(text@),
    {
        let threshold: usize = if self.bot_speaking {
            self.min_words
        } else {
            1
        };
        if count_words(text) >= threshold {
            one_action(
                TurnAction::UserTurnStarted(
                    UserTurnStartedParams {
                        enable_interruptions: self.enable_interruptions,
                        enable_user_speaking_frames: self.enable_user_speaking_frames,
                    },
                ),
            )
        } else {
            no_actions()
        }
    }
}

impl StartStrategy for MinWordsUserTurnStartStrategy {
    type Model = MinWordsStartModel;

    closed spec fn model(&self) -> MinWordsStartModel {
        MinWordsStartModel {
            enable_interruptions: self.enable_interruptions,
            enable_user_speaking_frames: self.enable_user_speaking_frames,
            min_words: self.min_words,
            use_interim: self.use_interim,
            bot_speaking: self.bot_speaking,
        }
    }

    open spec fn processed(pre: MinWordsStartModel, frame: FrameView) -> (
        MinWordsStartModel,
        Seq<TurnActionView>,
    ) {
        match frame {
            FrameView::BotStartedSpeaking => (
                MinWordsStartModel { bot_speaking: true, ..pre },
                nothing(),
            ),
            FrameView::BotStoppedSpeaking => (
                MinWordsStartModel { bot_speaking: false, ..pre },
                nothing(),
            ),
            FrameView::Transcription(t) => (pre, pre.checked(t.text)),
            FrameView::InterimTranscription(t) => (
                pre,
                if pre.use_interim {
                    pre.checked(t.text)
                } else {
                    nothing()
                },
            ),
            _ => (pre, nothing()),
        }
    }

    open spec fn cleared(pre: MinWordsStartModel) -> MinWordsStartModel {
        MinWordsStartModel { bot_speaking: false, ..pre }
    }

    open spec fn prepared(pre: MinWordsStartModel) -> MinWordsStartModel {
        pre
    }

    open spec fn closed(pre: MinWordsStartModel) -> MinWordsStartModel {
        pre
    }

    open spec fn interrupts(pre: MinWordsStartModel) -> bool {
        pre.enable_interruptions
    }

    open spec fn speaks(pre: MinWordsStartModel) -> bool {
        pre.enable_user_speaking_frames
    }

    fn process_frame(&mut self, frame: &Frame) -> (r: Vec<TurnAction>) {
        match frame {
            Frame::BotStartedSpeaking => {
                self.bot_speaking = true;
                no_actions()
            },
            Frame::BotStoppedSpeaking => {
                self.bot_speaking = false;
                no_actions()
            },
            Frame::Transcription(t) => self.check_words(t.text.as_str()),
            Frame::InterimTranscription(t) => {
                if self.use_interim {
                    self.check_words(t.text.as_str())
                } else {
                    no_actions()
                }
            },
            _ => no_actions(),
        }
    }

    fn reset(&mut self) {
        self.bot_speaking = false;
    }

    fn setup(&mut self) {
    }

    fn cleanup(&mut self) {
    }

    fn enable_interruptions(&self) -> (r: bool) {
        self.enable_interruptions
    }

    fn enable_user_speaking_frames(&self) -> (r: bool) {
        self.enable_user_speaking_frames
    }
}

} // verus!
