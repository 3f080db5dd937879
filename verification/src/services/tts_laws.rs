//! What holds of speech synthesis over runs of frames.
use vstd::prelude::*;

use crate::frames::{Direction, FrameView, TextOf};
use crate::runs::{gathered, lemma_gathered_concat, lemma_gathered_few};
use crate::services::action::ServiceActionView;
use crate::services::text_aggregator::{labelled, AggregatedTextView, TextAggregationMode};
use crate::services::text_laws::{
    blank, laid_out, lemma_text_is_made_of_its_sentences, lemma_trimming_cuts_the_ends,
};
use crate::services::tts::{all_spoken, spoken, TtsModel};
use crate::text::{is_space, numeral, trimmed};

verus! {

/// The text that an action asks to be spoken.
pub open spec fn text_spoken(a: ServiceActionView) -> Seq<Seq<char>> {
    match a {
        ServiceActionView::RunTts { text, .. } => seq![text],
        _ => Seq::empty(),
    }
}

/// All texts that actions ask to be spoken, one after the other.
pub open spec fn texts_spoken(actions: Seq<ServiceActionView>) -> Seq<Seq<char>> {
    gathered(actions, |a: ServiceActionView| text_spoken(a))
}

/// The text that an action sends downstream as text that is spoken.
pub open spec fn text_told(a: ServiceActionView) -> Seq<Seq<char>> {
    match a {
        ServiceActionView::SendDownstream(FrameView::TTSText(f)) => seq![f.text],
        _ => Seq::empty(),
    }
}

/// All texts that actions send downstream as text that is spoken.
pub open spec fn texts_told(actions: Seq<ServiceActionView>) -> Seq<Seq<char>> {
    gathered(actions, |a: ServiceActionView| text_told(a))
}

/// The direction in which an action pushes the frame at hand on.
pub open spec fn pushed_on(a: ServiceActionView) -> Seq<Direction> {
    match a {
        ServiceActionView::Forward(d) => seq![d],
        _ => Seq::empty(),
    }
}

/// Whether an action speaks in a context, or tells of what is spoken there with
/// these marks.
pub open spec fn in_context(
    a: ServiceActionView,
    context_id: Seq<char>,
    by: Seq<char>,
    spaces: bool,
    append: bool,
) -> bool {
    match a {
        ServiceActionView::RunTts { context_id: c, .. } => c == context_id,
        ServiceActionView::SendDownstream(f) => f matches FrameView::TTSText(x) && x.context_id
            == Some(context_id) && x.aggregated_by == by && x.includes_inter_frame_spaces == spaces
            && x.append_to_context == append && x.skip_tts is None,
        _ => true,
    }
}

/// Whether all actions are of that kind.
pub open spec fn all_in_context(
    actions: Seq<ServiceActionView>,
    context_id: Seq<char>,
    by: Seq<char>,
    spaces: bool,
    append: bool,
) -> bool {
    forall|i: int|
        0 <= i < actions.len() ==> in_context(
            #[trigger] actions[i],
            context_id,
            by,
            spaces,
            append,
        )
}

proof fn lemma_one_is_spoken(
    text: Seq<char>,
    by: Seq<char>,
    context_id: Seq<char>,
    push: bool,
    spaces: bool,
    append: bool,
)
    ensures
        ({
            let s = AggregatedTextView { text, aggregated_by: by };
            let actions = spoken(s, context_id, push, spaces, append);
            &&& texts_spoken(actions) == seq![text]
            &&& texts_told(actions) == if push {
                seq![text]
            } else {
                Seq::empty()
            }
            &&& all_in_context(actions, context_id, by, spaces, append)
            &&& gathered(actions, |a: ServiceActionView| pushed_on(a)).len() == 0
        }),
{
    let s = AggregatedTextView { text, aggregated_by: by };
    let actions = spoken(s, context_id, push, spaces, append);
    let e = Seq::<Seq<char>>::empty();
    lemma_gathered_few(actions, |a: ServiceActionView| text_spoken(a));
    lemma_gathered_few(actions, |a: ServiceActionView| text_told(a));
    lemma_gathered_few(actions, |a: ServiceActionView| pushed_on(a));
    assert(texts_spoken(actions) =~= seq![text]);
    assert(texts_told(actions) =~= if push {
        seq![text]
    } else {
        e
    });
}

proof fn lemma_all_are_spoken(
    texts: Seq<Seq<char>>,
    by: Seq<char>,
    context_id: Seq<char>,
    push: bool,
    spaces: bool,
    append: bool,
)
    ensures
        ({
            let actions = all_spoken(labelled(texts, by), context_id, push, spaces, append);
            &&& texts_spoken(actions) == texts
            &&& texts_told(actions) == if push {
                texts
            } else {
                Seq::empty()
            }
            &&& all_in_context(actions, context_id, by, spaces, append)
            &&& gathered(actions, |a: ServiceActionView| pushed_on(a)).len() == 0
        }),
    decreases texts.len(),
{
    let segments = labelled(texts, by);
    if texts.len() == 0 {
        assert(texts =~= Seq::empty());
    } else {
        let front = texts.drop_last();
        lemma_all_are_spoken(front, by, context_id, push, spaces, append);
        lemma_one_is_spoken(texts.last(), by, context_id, push, spaces, append);
        assert(segments.drop_last() =~= labelled(front, by));
        let first = all_spoken(segments.drop_last(), context_id, push, spaces, append);
        let second = spoken(segments.last(), context_id, push, spaces, append);
        lemma_gathered_concat(first, second, |a: ServiceActionView| text_spoken(a));
        lemma_gathered_concat(first, second, |a: ServiceActionView| text_told(a));
        lemma_gathered_concat(first, second, |a: ServiceActionView| pushed_on(a));
        assert(texts_spoken(first + second) =~= texts);
        assert(texts_told(first + second) =~= if push {
            texts
        } else {
            Seq::empty()
        });
        assert forall|i: int| 0 <= i < (first + second).len() implies in_context(
            #[trigger] (first + second)[i],
            context_id,
            by,
            spaces,
            append,
        ) by {
            if i < first.len() {
                assert((first + second)[i] == first[i]);
            } else {
                assert((first + second)[i] == second[i - first.len()]);
            }
        }
    }
}

/// The context in which a service speaks: that of the turn, or none.
pub open spec fn speaking_context(m: TtsModel) -> Seq<char> {
    if m.turn_context_id is Some {
        m.turn_context_id->0
    } else {
        Seq::empty()
    }
}

/// Text that arrives is spoken as it is. Token by token, the text itself is, if
/// there is any. Sentence by sentence, what waited and the text behind it are made
/// of the sentences spoken and of what then waits, in order and character by
/// character, with nothing but whitespace left out before them. All of it is
/// spoken in the context of the turn; what is told of it is what is spoken, marked
/// as the text was.
pub proof fn lemma_text_is_spoken_as_it_is(m: TtsModel, t: TextOf<Seq<char>>)
    ensures
        ({
            let (after, actions) = m.heard(t);
            let said = texts_spoken(actions);
            &&& match m.mode {
                TextAggregationMode::Token => {
                    &&& said == if t.text.len() == 0 {
                        Seq::empty()
                    } else {
                        seq![t.text]
                    }
                    &&& after.pending == m.pending
                    &&& all_in_context(
                        actions,
                        speaking_context(m),
                        "token"@,
                        t.includes_inter_frame_spaces,
                        t.append_to_context,
                    )
                },
                TextAggregationMode::Sentence => {
                    &&& laid_out(m.pending + t.text, said, after.pending)
                    &&& all_in_context(
                        actions,
                        speaking_context(m),
                        "sentence"@,
                        t.includes_inter_frame_spaces,
                        t.append_to_context,
                    )
                },
            }
            &&& texts_told(actions) == if m.push_text_frames {
                said
            } else {
                Seq::empty()
            }
            &&& gathered(actions, |a: ServiceActionView| pushed_on(a)).len() == 0
            &&& after.turn_context_id == m.turn_context_id
            &&& after.mode == m.mode
        }),
{
    let (after, actions) = m.heard(t);
    let begin = !m.measuring && m.base.metrics_enabled && m.mode == TextAggregationMode::Sentence;
    let first = if begin {
        seq![ServiceActionView::StartTextAggregation]
    } else {
        Seq::empty()
    };
    let second = if m.segments(t.text).len() > 0 {
        TtsModel { measuring: m.measuring || begin, ..m }.measured()
    } else {
        Seq::empty()
    };
    let texts = match m.mode {
        TextAggregationMode::Token => if t.text.len() == 0 {
            Seq::empty()
        } else {
            seq![t.text]
        },
        TextAggregationMode::Sentence => crate::services::text_aggregator::sentences(
            m.pending + t.text,
        ),
    };
    let by = match m.mode {
        TextAggregationMode::Token => "token"@,
        TextAggregationMode::Sentence => "sentence"@,
    };
    assert(m.segments(t.text) == labelled(texts, by));
    let third = all_spoken(
        labelled(texts, by),
        m.context_id(),
        m.push_text_frames,
        t.includes_inter_frame_spaces,
        t.append_to_context,
    );
    assert(actions == first + second + third);
    lemma_all_are_spoken(
        texts,
        by,
        m.context_id(),
        m.push_text_frames,
        t.includes_inter_frame_spaces,
        t.append_to_context,
    );
    let said = |a: ServiceActionView| text_spoken(a);
    let told = |a: ServiceActionView| text_told(a);
    let pushed = |a: ServiceActionView| pushed_on(a);
    lemma_gathered_few(first, said);
    lemma_gathered_few(first, told);
    lemma_gathered_few(first, pushed);
    lemma_gathered_few(second, said);
    lemma_gathered_few(second, told);
    lemma_gathered_few(second, pushed);
    lemma_gathered_concat(first, second, said);
    lemma_gathered_concat(first, second, told);
    lemma_gathered_concat(first, second, pushed);
    lemma_gathered_concat(first + second, third, said);
    lemma_gathered_concat(first + second, third, told);
    lemma_gathered_concat(first + second, third, pushed);
    assert(texts_spoken(actions) =~= texts);
    assert(texts_told(actions) =~= texts_told(third));
    assert forall|i: int| 0 <= i < actions.len() implies in_context(
        #[trigger] actions[i],
        m.context_id(),
        by,
        t.includes_inter_frame_spaces,
        t.append_to_context,
    ) by {
        if i >= (first + second).len() {
            assert(actions[i] == third[i - (first + second).len()]);
        }
    }
    lemma_text_is_made_of_its_sentences(m.pending + t.text);
}

/// What waits is spoken at the end of a response and at the end of all, without
/// whitespace at its ends, in the context of the turn; nothing waits after that.
/// If only whitespace waits, nothing is spoken.
pub proof fn lemma_waiting_text_is_spoken(
    m: TtsModel,
    frame: FrameView,
    direction: Direction,
    number: u64,
)
    requires
        frame is LLMFullResponseEnd || frame is End,
    ensures
        ({
            let (after, actions) = m.processed(frame, direction, number);
            let said = texts_spoken(actions);
            &&& if blank(m.pending) {
                said.len() == 0
            } else {
                &&& said.len() == 1
                &&& exists|k: int, n: int|
                    0 <= k < n <= m.pending.len() && #[trigger] m.pending.subrange(k, n) == said[0]
                        && blank(m.pending.take(k)) && blank(m.pending.skip(n)) && !is_space(
                        m.pending[k],
                    ) && !is_space(m.pending[n - 1])
            }
            &&& texts_told(actions) == if m.push_text_frames {
                said
            } else {
                Seq::empty()
            }
            &&& all_in_context(actions, speaking_context(m), "sentence"@, false, true)
            &&& after.pending.len() == 0
            &&& gathered(actions, |a: ServiceActionView| pushed_on(a)) == seq![direction]
            &&& actions.last() == ServiceActionView::Forward(direction)
        }),
{
    let (after, actions) = m.processed(frame, direction, number);
    let text = trimmed(m.pending);
    lemma_trimming_cuts_the_ends(m.pending);
    let (k, n) = choose|k: int, n: int|
        0 <= k <= n <= m.pending.len() && #[trigger] m.pending.subrange(k, n) == trimmed(m.pending)
            && blank(m.pending.take(k)) && blank(m.pending.skip(n));
    if text.len() == 0 {
        assert forall|i: int| 0 <= i < m.pending.len() implies is_space(#[trigger] m.pending[i]) by {
            if i < k {
                assert(is_space(m.pending.take(k)[i]));
            } else {
                assert(is_space(m.pending.skip(n)[i - n]));
            }
        }
    } else {
        assert(text[0] == m.pending[k]);
        assert(text.last() == m.pending[n - 1]);
        assert(!blank(m.pending));
        lemma_one_is_spoken(
            text,
            "sentence"@,
            m.context_id(),
            m.push_text_frames,
            false,
            true,
        );
    }
    let speech = m.flushed().1;
    let rest = actions.skip(speech.len() as int);
    assert(actions =~= speech + rest);
    let said = |a: ServiceActionView| text_spoken(a);
    let told = |a: ServiceActionView| text_told(a);
    let pushed = |a: ServiceActionView| pushed_on(a);
    lemma_gathered_few(rest, said);
    lemma_gathered_few(rest, told);
    lemma_gathered_few(rest, pushed);
    lemma_gathered_concat(speech, rest, said);
    lemma_gathered_concat(speech, rest, told);
    lemma_gathered_concat(speech, rest, pushed);
    assert(texts_spoken(actions) =~= texts_spoken(speech));
    assert(texts_told(actions) =~= texts_told(speech));
    assert(gathered(actions, pushed) =~= seq![direction]);
    assert forall|i: int| 0 <= i < actions.len() implies in_context(
        #[trigger] actions[i],
        m.context_id(),
        "sentence"@,
        false,
        true,
    ) by {
        if i < speech.len() {
            assert(actions[i] == speech[i]);
        } else {
            assert(actions[i] == rest[i - speech.len()]);
        }
    }
}

/// Any other frame is pushed on once, in its direction, and nothing is spoken for
/// it; text that is to be left out of speech is such a frame. What waits stays,
/// but that an interruption drops it.
pub proof fn lemma_other_frames_are_pushed_on(
    m: TtsModel,
    frame: FrameView,
    direction: Direction,
    number: u64,
)
    requires
        !(frame is LLMFullResponseEnd || frame is End),
        frame matches FrameView::Text(t) ==> t.skip_tts == Some(true),
    ensures
        ({
            let (after, actions) = m.processed(frame, direction, number);
            &&& texts_spoken(actions).len() == 0
            &&& texts_told(actions).len() == 0
            &&& gathered(actions, |a: ServiceActionView| pushed_on(a)) == seq![direction]
            &&& after.pending == if frame is Interruption {
                Seq::empty()
            } else {
                m.pending
            }
            &&& after.mode == m.mode
            &&& after.push_text_frames == m.push_text_frames
            &&& !(frame is LLMFullResponseStart) ==> after.turn_context_id == m.turn_context_id
            &&& frame is LLMFullResponseStart ==> after.turn_context_id == Some(
                "ctx_"@ + numeral(number as nat),
            )
        }),
{
    let actions = m.processed(frame, direction, number).1;
    lemma_gathered_few(actions, |a: ServiceActionView| text_spoken(a));
    lemma_gathered_few(actions, |a: ServiceActionView| text_told(a));
    lemma_gathered_few(actions, |a: ServiceActionView| pushed_on(a));
    assert(gathered(actions, |a: ServiceActionView| pushed_on(a)) =~= seq![direction]);
}

/// A frame with its direction and the number that a new turn would get.
pub struct PushedFrame {
    pub frame: FrameView,
    pub direction: Direction,
    pub number: u64,
}

impl TtsModel {
    /// The service after a run of frames, and all that they call for.
    pub open spec fn all_processed(self, frames: Seq<PushedFrame>) -> (
        TtsModel,
        Seq<ServiceActionView>,
    )
        decreases frames.len(),
    {
        if frames.len() == 0 {
            (self, Seq::empty())
        } else {
            let (m, actions) = self.all_processed(frames.drop_last());
            let f = frames.last();
            let (m, more) = m.processed(f.frame, f.direction, f.number);
            (m, actions + more)
        }
    }
}

/// The text that a frame brings to be spoken.
pub open spec fn text_brought(f: PushedFrame) -> Seq<Seq<char>> {
    match f.frame {
        FrameView::Text(t) => if t.skip_tts == Some(true) || t.text.len() == 0 {
            Seq::empty()
        } else {
            seq![t.text]
        },
        _ => Seq::empty(),
    }
}

/// Token by token, over any run of frames, every text that is not left out of
/// speech is spoken, once, in order and as it is, and nothing else is.
pub proof fn lemma_tokens_are_spoken(m: TtsModel, frames: Seq<PushedFrame>)
    requires
        m.mode == TextAggregationMode::Token,
        m.pending.len() == 0,
    ensures
        texts_spoken(m.all_processed(frames).1) == gathered(
            frames,
            |f: PushedFrame| text_brought(f),
        ),
        m.all_processed(frames).0.mode == m.mode,
        m.all_processed(frames).0.pending.len() == 0,
    decreases frames.len(),
{
    if frames.len() > 0 {
        lemma_tokens_are_spoken(m, frames.drop_last());
        let (mid, actions) = m.all_processed(frames.drop_last());
        let f = frames.last();
        let more = mid.processed(f.frame, f.direction, f.number).1;
        lemma_gathered_concat(actions, more, |a: ServiceActionView| text_spoken(a));
        if f.frame is LLMFullResponseEnd || f.frame is End {
            lemma_waiting_text_is_spoken(mid, f.frame, f.direction, f.number);
        } else if f.frame is Text && text_brought(f).len() > 0 {
            lemma_text_is_spoken_as_it_is(mid, f.frame->Text_0);
        } else if f.frame is Text && f.frame->Text_0.skip_tts != Some(true) {
            lemma_text_is_spoken_as_it_is(mid, f.frame->Text_0);
        } else {
            lemma_other_frames_are_pushed_on(mid, f.frame, f.direction, f.number);
        }
        assert(texts_spoken(more) =~= text_brought(f));
    }
}

/// How measurements go: text aggregation is measured from the first text of a
/// response, where that is wanted and text is aggregated; the first sentence ends
/// it. The end of a response ends it once in any case.
pub proof fn lemma_aggregation_is_measured(
    m: TtsModel,
    t: TextOf<Seq<char>>,
    skip: Option<bool>,
    direction: Direction,
    number: u64,
)
    ensures
        ({
            let (after, actions) = m.heard(t);
            let wanted = m.base.metrics_enabled && m.mode == TextAggregationMode::Sentence;
            &&& wanted && !m.measuring ==> actions.len() > 0 && actions[0]
                == ServiceActionView::StartTextAggregation
            &&& after.measuring == (m.measuring || wanted)
        }),
        ({
            let (after, actions) = m.processed(
                FrameView::LLMFullResponseEnd { skip_tts: skip },
                direction,
                number,
            );
            let n = actions.len() as int;
            &&& n >= 2 && actions[n - 2] == ServiceActionView::FinishTextAggregation
            &&& m.measuring && m.base.metrics_enabled ==> n >= 3 && actions[n - 3]
                == ServiceActionView::PushTextAggregationMetrics
        }),
        !m.processed(FrameView::Interruption, direction, number).0.measuring,
        !m.processed(
            FrameView::LLMFullResponseStart { skip_tts: skip },
            direction,
            number,
        ).0.measuring,
        m.processed(FrameView::Interruption, direction, number).1.contains(
            ServiceActionView::ResetMetrics,
        ),
{
    let actions = m.processed(FrameView::Interruption, direction, number).1;
    assert(actions[0] == ServiceActionView::ResetMetrics);
}

} // verus!
