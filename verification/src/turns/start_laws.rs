//! What starts a user turn, told by the frames since the last reset.
use vstd::prelude::*;

use crate::frames::FrameView;
use crate::text::{is_space, word_count};
use crate::turns::action::TurnActionView;
use crate::turns::start::external::ExternalUserTurnStartStrategy;
use crate::turns::start::min_words::{MinWordsStartModel, MinWordsUserTurnStartStrategy};
use crate::turns::start::transcription::{
    TranscriptionStartModel, TranscriptionUserTurnStartStrategy,
};
use crate::turns::start::vad::{VadStartModel, VadUserTurnStartStrategy};
use crate::turns::start::StartStrategy;

verus! {

/// The state of a strategy after a run of frames.
pub open spec fn watched<S: StartStrategy>(pre: S::Model, frames: Seq<FrameView>) -> S::Model
    decreases frames.len(),
{
    if frames.len() == 0 {
        pre
    } else {
        S::processed(watched::<S>(pre, frames.drop_last()), frames.last()).0
    }
}

/// Whether the last that frames tell of the bot is that it started speaking.
pub open spec fn bot_speaks(frames: Seq<FrameView>) -> bool
    decreases frames.len(),
{
    if frames.len() == 0 {
        false
    } else if frames.last() is BotStartedSpeaking {
        true
    } else if frames.last() is BotStoppedSpeaking {
        false
    } else {
        bot_speaks(frames.drop_last())
    }
}

/// Whether a text has a character that is not whitespace.
pub open spec fn has_word(text: Seq<char>) -> bool {
    exists|i: int| 0 <= i < text.len() && !is_space(#[trigger] text[i])
}

/// Whether actions start a turn with these settings, and do nothing else.
pub open spec fn only_start(
    actions: Seq<TurnActionView>,
    interruptions: bool,
    speaking_frames: bool,
) -> bool {
    &&& actions.len() == 1
    &&& actions[0] matches TurnActionView::UserTurnStarted(p) && p.enable_interruptions
        == interruptions && p.enable_user_speaking_frames == speaking_frames
}

/// A text has words exactly if something in it is not whitespace.
pub proof fn lemma_words_are_not_whitespace(text: Seq<char>)
    ensures
        word_count(text) > 0 <==> has_word(text),
        word_count(text) <= text.len(),
    decreases text.len(),
{
    if text.len() > 0 {
        let front = text.drop_last();
        lemma_words_are_not_whitespace(front);
        if has_word(front) {
            let i = choose|i: int| 0 <= i < front.len() && !is_space(#[trigger] front[i]);
            assert(!is_space(text[i]));
        }
        if has_word(text) && !has_word(front) {
            let i = choose|i: int| 0 <= i < text.len() && !is_space(#[trigger] text[i]);
            assert(i == text.len() - 1) by {
                if i < text.len() - 1 {
                    assert(!is_space(front[i]));
                }
            }
            if text.len() >= 2 {
                assert(front[text.len() - 2] == text[text.len() - 2]);
            }
        }
    }
}

/// A text without whitespace is one word, if it is not empty.
pub proof fn lemma_unbroken_text_is_one_word(text: Seq<char>)
    requires
        text.len() > 0,
        forall|i: int| 0 <= i < text.len() ==> !is_space(#[trigger] text[i]),
    ensures
        word_count(text) == 1,
    decreases text.len(),
{
    if text.len() > 1 {
        let front = text.drop_last();
        assert forall|i: int| 0 <= i < front.len() implies !is_space(#[trigger] front[i]) by {
            assert(!is_space(text[i]));
        }
        lemma_unbroken_text_is_one_word(front);
        assert(!is_space(text[text.len() - 2]));
    } else {
        assert(word_count(text.drop_last()) == 0);
    }
}

/// Whitespace between two texts keeps their words apart: together they have as
/// many words as both of them.
pub proof fn lemma_whitespace_parts_words(a: Seq<char>, c: char, b: Seq<char>)
    requires
        is_space(c),
    ensures
        word_count(a.push(c) + b) == word_count(a) + word_count(b),
    decreases b.len(),
{
    let whole = a.push(c) + b;
    if b.len() == 0 {
        assert(whole =~= a.push(c));
        assert(whole.drop_last() =~= a);
    } else {
        assert(whole.drop_last() =~= a.push(c) + b.drop_last());
        lemma_whitespace_parts_words(a, c, b.drop_last());
        if b.len() == 1 {
            assert(whole[whole.len() - 2] == c);
        } else {
            assert(whole[whole.len() - 2] == b[b.len() - 2]);
        }
    }
}

/// Blanks, tabs and line ends are whitespace; letters, digits and marks of
/// punctuation are not.
pub proof fn lemma_whitespace_of_plain_text(c: char)
    ensures
        c == ' ' || c == '\t' || c == '\n' || c == '\r' ==> is_space(c),
        '!' <= c <= '~' ==> !is_space(c),
{
}

/// While the bot speaks, as the last of its frames since the reset has it, a turn
/// starts only with the minimum of words; while it does not, any word is enough.
/// Both hold of final and of interim transcriptions alike, but that interim ones
/// may be left out of use. No other frame starts a turn.
pub proof fn lemma_words_start_a_turn(
    m: MinWordsStartModel,
    frames: Seq<FrameView>,
    frame: FrameView,
)
    ensures
        ({
            let cleared = MinWordsUserTurnStartStrategy::cleared(m);
            let now = watched::<MinWordsUserTurnStartStrategy>(cleared, frames);
            let actions = MinWordsUserTurnStartStrategy::processed(now, frame).1;
            let starts = only_start(
                actions,
                m.enable_interruptions,
                m.enable_user_speaking_frames,
            );
            let words_start = |text: Seq<char>|
                {
                    &&& bot_speaks(frames) && word_count(text) < m.min_words ==> actions.len()
                        == 0
                    &&& bot_speaks(frames) && word_count(text) >= m.min_words ==> starts
                    &&& !bot_speaks(frames) && has_word(text) ==> starts
                    &&& !bot_speaks(frames) && !has_word(text) ==> actions.len() == 0
                };
            match frame {
                FrameView::Transcription(t) => words_start(t.text),
                FrameView::InterimTranscription(t) => if m.use_interim {
                    words_start(t.text)
                } else {
                    actions.len() == 0
                },
                _ => actions.len() == 0,
            }
        }),
{
    let cleared = MinWordsUserTurnStartStrategy::cleared(m);
    lemma_bot_is_followed(cleared, frames);
    if let FrameView::Transcription(t) = frame {
        lemma_words_are_not_whitespace(t.text);
    }
    if let FrameView::InterimTranscription(t) = frame {
        lemma_words_are_not_whitespace(t.text);
    }
}

proof fn lemma_bot_is_followed(m: MinWordsStartModel, frames: Seq<FrameView>)
    requires
        !m.bot_speaking,
    ensures
        watched::<MinWordsUserTurnStartStrategy>(m, frames) == (MinWordsStartModel {
            bot_speaking: bot_speaks(frames),
            ..m
        }),
    decreases frames.len(),
{
    if frames.len() > 0 {
        lemma_bot_is_followed(m, frames.drop_last());
    }
}

/// A transcription starts a turn whatever its text and whatever came before, an
/// interim one where those are in use; nothing else does.
pub proof fn lemma_transcriptions_start_a_turn(
    m: TranscriptionStartModel,
    frames: Seq<FrameView>,
    frame: FrameView,
)
    ensures
        ({
            let now = watched::<TranscriptionUserTurnStartStrategy>(m, frames);
            let actions = TranscriptionUserTurnStartStrategy::processed(now, frame).1;
            match frame {
                FrameView::Transcription(_) => only_start(
                    actions,
                    m.enable_interruptions,
                    m.enable_user_speaking_frames,
                ),
                FrameView::InterimTranscription(_) if m.use_interim => only_start(
                    actions,
                    m.enable_interruptions,
                    m.enable_user_speaking_frames,
                ),
                _ => actions.len() == 0,
            }
        }),
    decreases frames.len(),
{
    if frames.len() > 0 {
        lemma_transcriptions_start_a_turn(m, frames.drop_last(), frame);
    }
}

/// Each onset of speech that voice activity detection hears starts a turn, and
/// nothing else does.
pub proof fn lemma_voice_starts_a_turn(
    m: VadStartModel,
    frames: Seq<FrameView>,
    frame: FrameView,
)
    ensures
        ({
            let now = watched::<VadUserTurnStartStrategy>(m, frames);
            let actions = VadUserTurnStartStrategy::processed(now, frame).1;
            match frame {
                FrameView::VADUserStartedSpeaking { .. } => only_start(
                    actions,
                    m.enable_interruptions,
                    m.enable_user_speaking_frames,
                ),
                _ => actions.len() == 0,
            }
        }),
    decreases frames.len(),
{
    if frames.len() > 0 {
        lemma_voice_starts_a_turn(m, frames.drop_last(), frame);
    }
}

/// An external report that the user started speaking starts a turn, and nothing
/// else does; interruptions and speaking frames are left to the external service.
pub proof fn lemma_reports_start_a_turn(frame: FrameView)
    ensures
        ({
            let actions = ExternalUserTurnStartStrategy::processed((), frame).1;
            match frame {
                FrameView::UserStartedSpeaking => only_start(actions, false, false),
                _ => actions.len() == 0,
            }
        }),
{
}

} // verus!
