//! Speech synthesis services.
use vstd::prelude::*;
use vstd::string::*;

use crate::frames::{
    clone_text_opt, text_opt, AggregatedTextFrameOf, Direction, Frame, FrameEnvelope, FrameView,
    TextFrame, TextOf,
};
use crate::services::action::{emit, service_actions_of, ServiceAction, ServiceActionView};
use crate::services::service_base::{ServiceBase, ServiceBaseView};
use crate::services::settings::{Settings, TTSSettings, TTSSettingsView};
use crate::services::stt::lists;
use crate::services::text_aggregator::{
    joined, labelled, lemma_sentences_lose_only_whitespace, lemma_solid_concat,
    lemma_solid_trimmed, segments_of, sentences, solid, unfinished, AggregatedText,
    AggregatedTextView, SimpleTextAggregator, TextAggregationMode,
};
use crate::text::{decimal, lemma_numerals_differ, numeral, trimmed};

verus! {

/// State held by speech synthesis services.
#[derive(Debug)]
pub struct TTSServiceState {
    pub base: ServiceBase,
    pub settings: TTSSettings,
    pub sample_rate: u32,
    pub aggregator: SimpleTextAggregator,
    pub turn_context_id: Option<String>,
    pub llm_response_started: bool,
    push_text_frames: bool,
    text_agg_metrics_started: bool,
}

/// What a [`TTSServiceState`] says.
pub struct TtsModel {
    pub base: ServiceBaseView,
    pub settings: TTSSettingsView,
    pub sample_rate: u32,
    pub mode: TextAggregationMode,
    /// Text that waits for the end of its sentence.
    pub pending: Seq<char>,
    pub turn_context_id: Option<Seq<char>>,
    pub llm_response_started: bool,
    pub push_text_frames: bool,
    /// Whether text aggregation is being measured.
    pub measuring: bool,
}

impl View for TTSServiceState {
    type V = TtsModel;

    closed spec fn view(&self) -> TtsModel {
        TtsModel {
            base: self.base@,
            settings: self.settings@,
            sample_rate: self.sample_rate,
            mode: self.aggregator.mode_of(),
            pending: self.aggregator.pending(),
            turn_context_id: text_opt(self.turn_context_id),
            llm_response_started: self.llm_response_started,
            push_text_frames: self.push_text_frames,
            measuring: self.text_agg_metrics_started,
        }
    }
}

/// The context id with a number.
pub open spec fn context_id_of(number: u64) -> Seq<char> {
    "ctx_"@ + numeral(number as nat)
}

/// Turns with different numbers have different context ids.
pub proof fn lemma_context_ids_differ(a: u64, b: u64)
    requires
        a != b,
    ensures
        context_id_of(a) != context_id_of(b),
{
    assert(context_id_of(a).skip("ctx_"@.len() as int) =~= numeral(a as nat));
    assert(context_id_of(b).skip("ctx_"@.len() as int) =~= numeral(b as nat));
    lemma_numerals_differ(a as nat, b as nat);
}

/// Make the context id with a number.
pub fn uuid_context_id(number: u64) -> (r: String)
    ensures
        r@ == context_id_of(number),
{
    "ctx_".to_owned().concat(decimal(number).as_str())
}

/// What is done with a segment of text: it is sent downstream, if so configured,
/// and spoken.
pub open spec fn spoken(
    segment: AggregatedTextView,
    context_id: Seq<char>,
    push_text_frames: bool,
    includes_inter_frame_spaces: bool,
    append_to_context: bool,
) -> Seq<ServiceActionView> {
    let frame = FrameView::TTSText(
        AggregatedTextFrameOf {
            text: segment.text,
            aggregated_by: segment.aggregated_by,
            context_id: Some(context_id),
            skip_tts: None,
            includes_inter_frame_spaces,
            append_to_context,
        },
    );
    (if push_text_frames {
        seq![ServiceActionView::SendDownstream(frame)]
    } else {
        Seq::empty()
    }).push(ServiceActionView::RunTts { text: segment.text, context_id })
}

/// What is done with segments of text, one after the other.
pub open spec fn all_spoken(
    segments: Seq<AggregatedTextView>,
    context_id: Seq<char>,
    push_text_frames: bool,
    includes_inter_frame_spaces: bool,
    append_to_context: bool,
) -> Seq<ServiceActionView>
    decreases segments.len(),
{
    if segments.len() == 0 {
        Seq::empty()
    } else {
        all_spoken(
            segments.drop_last(),
            context_id,
            push_text_frames,
            includes_inter_frame_spaces,
            append_to_context,
        ) + spoken(
            segments.last(),
            context_id,
            push_text_frames,
            includes_inter_frame_spaces,
            append_to_context,
        )
    }
}

impl TtsModel {
    /// A service that was just made.
    pub open spec fn fresh(
        name: Seq<char>,
        settings: TTSSettingsView,
        mode: TextAggregationMode,
        sample_rate: u32,
    ) -> TtsModel {
        TtsModel {
            base: ServiceBaseView::fresh(name, settings.model),
            settings,
            sample_rate,
            mode,
            pending: Seq::empty(),
            turn_context_id: None,
            llm_response_started: false,
            push_text_frames: true,
            measuring: false,
        }
    }

    /// The context id of the turn, empty where there is none.
    pub open spec fn context_id(self) -> Seq<char> {
        match self.turn_context_id {
            Some(id) => id,
            None => Seq::empty(),
        }
    }

    /// The segments that a text completes.
    pub open spec fn segments(self, text: Seq<char>) -> Seq<AggregatedTextView> {
        match self.mode {
            TextAggregationMode::Token => labelled(
                if text.len() == 0 {
                    Seq::empty()
                } else {
                    seq![text]
                },
                "token"@,
            ),
            TextAggregationMode::Sentence => labelled(sentences(self.pending + text), "sentence"@),
        }
    }

    /// The service with the remaining text spoken.
    pub open spec fn flushed(self) -> (TtsModel, Seq<ServiceActionView>) {
        let text = trimmed(self.pending);
        (
            TtsModel { pending: Seq::empty(), ..self },
            if text.len() > 0 {
                spoken(
                    AggregatedTextView { text, aggregated_by: "sentence"@ },
                    self.context_id(),
                    self.push_text_frames,
                    false,
                    true,
                )
            } else {
                Seq::empty()
            },
        )
    }

    /// The measurement of text aggregation ends, if it is under way and wanted.
    pub open spec fn measured(self) -> Seq<ServiceActionView> {
        if self.measuring && self.base.metrics_enabled {
            seq![
                ServiceActionView::PushTextAggregationMetrics,
                ServiceActionView::FinishTextAggregation,
            ]
        } else {
            Seq::empty()
        }
    }

    /// A text arrives, and its segments are spoken. Sentence aggregation is
    /// measured from the first text to the first segment.
    pub open spec fn heard(self, t: TextOf<Seq<char>>) -> (TtsModel, Seq<ServiceActionView>) {
        let begin = !self.measuring && self.base.metrics_enabled && self.mode
            == TextAggregationMode::Sentence;
        let m = TtsModel { measuring: self.measuring || begin, ..self };
        let segments = self.segments(t.text);
        (
            TtsModel {
                pending: match self.mode {
                    TextAggregationMode::Token => self.pending,
                    TextAggregationMode::Sentence => unfinished(self.pending + t.text),
                },
                ..m
            },
            (if begin {
                seq![ServiceActionView::StartTextAggregation]
            } else {
                Seq::empty()
            }) + (if segments.len() > 0 {
                m.measured()
            } else {
                Seq::empty()
            }) + all_spoken(
                segments,
                self.context_id(),
                self.push_text_frames,
                t.includes_inter_frame_spaces,
                t.append_to_context,
            ),
        )
    }

    /// The service after its settings were changed. A new model is the one that
    /// measurements are reported for.
    pub open spec fn updated(
        self,
        delta: Map<Seq<char>, crate::json::Json>,
    ) -> TtsModel {
        let settings = self.settings.applied(delta);
        TtsModel {
            settings,
            base: if self.settings.changes(delta).contains("model"@) && settings.model is Some {
                ServiceBaseView { model: settings.model, ..self.base }
            } else {
                self.base
            },
            ..self
        }
    }

    /// The service after a frame, and what the frame calls for.
    pub open spec fn processed(
        self,
        frame: FrameView,
        direction: Direction,
        context_number: u64,
    ) -> (TtsModel, Seq<ServiceActionView>) {
        let forward = seq![ServiceActionView::Forward(direction)];
        match frame {
            FrameView::Start(f) => (TtsModel { base: self.base.started(f), ..self }, forward),
            FrameView::LLMFullResponseStart { .. } => (
                TtsModel {
                    llm_response_started: true,
                    measuring: false,
                    turn_context_id: Some(context_id_of(context_number)),
                    ..self
                },
                forward,
            ),
            FrameView::LLMFullResponseEnd { .. } => {
                let (m, speech) = TtsModel { llm_response_started: false, ..self }.flushed();
                // The measurement covers the final segment too.
                let end = if self.measuring && self.base.metrics_enabled {
                    seq![
                        ServiceActionView::PushTextAggregationMetrics,
                        ServiceActionView::FinishTextAggregation,
                    ]
                } else {
                    seq![ServiceActionView::FinishTextAggregation]
                };
                (m, speech + end + forward)
            },
            FrameView::Text(t) => if t.skip_tts == Some(true) {
                (self, forward)
            } else {
                self.heard(t)
            },
            FrameView::TTSUpdateSettings(delta) => (self.updated(delta), forward),
            FrameView::End => {
                let (m, speech) = self.flushed();
                (m, speech + forward)
            },
            FrameView::Interruption => (
                TtsModel {
                    pending: Seq::empty(),
                    llm_response_started: false,
                    measuring: false,
                    ..self
                },
                seq![ServiceActionView::ResetMetrics] + forward,
            ),
            _ => (self, forward),
        }
    }
}

/// Asks for a segment to be sent downstream, if so configured, and spoken.
fn speak(
    actions: &mut Vec<ServiceAction>,
    segment: AggregatedText,
    context_id: &String,
    push_text_frames: bool,
    includes_inter_frame_spaces: bool,
    append_to_context: bool,
)
    ensures
        service_actions_of(final(actions)@) == service_actions_of(old(actions)@) + spoken(
            segment@,
            context_id@,
            push_text_frames,
            includes_inter_frame_spaces,
            append_to_context,
        ),
{
    let ghost said = segment@;
    let AggregatedText { text, aggregated_by } = segment;
    if push_text_frames {
        emit(
            actions,
            ServiceAction::SendDownstream(
                Frame::TTSText(
                    AggregatedTextFrameOf {
                        text: text.clone(),
                        aggregated_by,
                        context_id: Some(context_id.clone()),
                        skip_tts: None,
                        includes_inter_frame_spaces,
                        append_to_context,
                    },
                ),
            ),
        );
    }
    emit(actions, ServiceAction::RunTts { text, context_id: context_id.clone() });
    proof {
        assert(service_actions_of(actions@) =~= service_actions_of(old(actions)@) + spoken(
            said,
            context_id@,
            push_text_frames,
            includes_inter_frame_spaces,
            append_to_context,
        ));
    }
}

/// Asks for segments to be sent downstream, if so configured, and spoken.
fn speak_all(
    actions: &mut Vec<ServiceAction>,
    segments: Vec<AggregatedText>,
    context_id: &String,
    push_text_frames: bool,
    includes_inter_frame_spaces: bool,
    append_to_context: bool,
)
    ensures
        service_actions_of(final(actions)@) == service_actions_of(old(actions)@) + all_spoken(
            segments_of(segments@),
            context_id@,
            push_text_frames,
            includes_inter_frame_spaces,
            append_to_context,
        ),
{
    let ghost first = service_actions_of(actions@);
    let ghost all = segments_of(segments@);
    proof {
        assert(all.take(0) =~= Seq::empty());
        assert(first + Seq::<ServiceActionView>::empty() =~= first);
    }
    for segment in it: segments
        invariant
            segments_of(it.seq()) == all,
            service_actions_of(actions@) == first + all_spoken(
                all.take(it.index() as int),
                context_id@,
                push_text_frames,
                includes_inter_frame_spaces,
                append_to_context,
            ),
    {
        let ghost k = it.index() as int;
        let ghost earlier = all_spoken(
            all.take(k),
            context_id@,
            push_text_frames,
            includes_inter_frame_spaces,
            append_to_context,
        );
        let ghost one = spoken(
            segment@,
            context_id@,
            push_text_frames,
            includes_inter_frame_spaces,
            append_to_context,
        );
        proof {
            assert(all[k] == segment@);
            assert(all.take(k + 1).drop_last() =~= all.take(k));
            assert(all.take(k + 1).last() == all[k]);
        }
        speak(
            actions,
            segment,
            context_id,
            push_text_frames,
            includes_inter_frame_spaces,
            append_to_context,
        );
        proof {
            assert((first + earlier) + one =~= first + (earlier + one));
        }
    }
    proof {
        assert(all.take(all.len() as int) =~= all);
    }
}

impl TTSServiceState {
    pub fn new(
        name: String,
        settings: TTSSettings,
        aggregation_mode: TextAggregationMode,
        sample_rate: u32,
    ) -> (r: Self)
        ensures
            r@ == TtsModel::fresh(name@, settings@, aggregation_mode, sample_rate),
    {
        let model = clone_text_opt(&settings.model);
        TTSServiceState {
            base: ServiceBase::new(name, model),
            settings,
            sample_rate,
            aggregator: SimpleTextAggregator::new(aggregation_mode),
            turn_context_id: None,
            llm_response_started: false,
            push_text_frames: true,
            text_agg_metrics_started: false,
        }
    }

    /// Set whether to send segments of text downstream.
    pub fn set_push_text_frames(&mut self, push: bool)
        ensures
            final(self)@ == (TtsModel { push_text_frames: push, ..old(self)@ }),
    {
        self.push_text_frames = push;
    }

    /// Text aggregation is no longer measured.
    pub fn finish_text_aggregation(&mut self)
        ensures
            final(self)@ == (TtsModel { measuring: false, ..old(self)@ }),
    {
        self.text_agg_metrics_started = false;
    }

    /// The context id of the turn, empty where there is none.
    fn context_id(&self) -> (r: String)
        ensures
            r@ == self@.context_id(),
    {
        match &self.turn_context_id {
            Some(id) => id.clone(),
            None => String::new(),
        }
    }

    /// Speaks the remaining text.
    fn flush(&mut self, actions: &mut Vec<ServiceAction>)
        ensures
            final(self)@ == old(self)@.flushed().0,
            service_actions_of(final(actions)@) == service_actions_of(old(actions)@)
                + old(self)@.flushed().1,
    {
        let context_id = self.context_id();
        match self.aggregator.flush() {
            Some(segment) => {
                speak(actions, segment, &context_id, self.push_text_frames, false, true);
            },
            None => {
                proof {
                    assert(service_actions_of(actions@) =~= service_actions_of(actions@)
                        + old(self)@.flushed().1);
                }
            },
        }
    }

    /// A text arrives: speaks the segments that it completes.
    fn hear(&mut self, t: &TextFrame, actions: &mut Vec<ServiceAction>)
        ensures
            final(self)@ == old(self)@.heard(t@).0,
            service_actions_of(final(actions)@) == service_actions_of(old(actions)@)
                + old(self)@.heard(t@).1,
    {
        let ghost pre = self@;
        let ghost before = service_actions_of(actions@);
        if !self.text_agg_metrics_started && self.base.metrics_enabled() && self.aggregator.mode()
            == TextAggregationMode::Sentence {
            emit(actions, ServiceAction::StartTextAggregation);
            self.text_agg_metrics_started = true;
        }
        let context_id = self.context_id();
        let segments = self.aggregator.process(t.text.as_str());
        let push = self.push_text_frames;
        let ghost all = segments_of(segments@);
        if segments.len() > 0 && self.text_agg_metrics_started && self.base.metrics_enabled() {
            emit(actions, ServiceAction::PushTextAggregationMetrics);
            emit(actions, ServiceAction::FinishTextAggregation);
        }
        let ghost first = service_actions_of(actions@);
        speak_all(
            actions,
            segments,
            &context_id,
            push,
            t.includes_inter_frame_spaces,
            t.append_to_context,
        );
        proof {
            assert(all == pre.segments(t@.text));
            assert(context_id@ == pre.context_id());
            assert(service_actions_of(actions@) =~= before + pre.heard(t@).1);
        }
    }

    /// Changes the settings.
    pub fn update_settings(&mut self, delta: &Settings)
        ensures
            final(self)@ == old(self)@.updated(delta@),
    {
        let changed = self.settings.apply_delta(delta);
        if lists(&changed, "model") {
            if let Some(model) = &self.settings.model {
                self.base.set_model(model.clone());
            }
        }
    }
}

/// Common frame routing for speech synthesis services. A response that starts
/// is given the context id with the given number.
pub fn tts_process_frame(
    state: &mut TTSServiceState,
    envelope: &FrameEnvelope,
    direction: Direction,
    context_number: u64,
) -> (r: Vec<ServiceAction>)
    ensures
        (final(state)@, service_actions_of(r@)) == old(state)@.processed(
            envelope@.frame,
            direction,
            context_number,
        ),
{
    let ghost pre = state@;
    let mut actions: Vec<ServiceAction> = Vec::new();
    proof {
        assert(service_actions_of(actions@) =~= Seq::empty());
    }
    match &envelope.frame {
        Frame::Start(f) => {
            state.base.handle_start_frame(f);
            emit(&mut actions, ServiceAction::Forward(direction));
        },
        Frame::LLMFullResponseStart { .. } => {
            state.llm_response_started = true;
            state.text_agg_metrics_started = false;
            state.turn_context_id = Some(uuid_context_id(context_number));
            emit(&mut actions, ServiceAction::Forward(direction));
        },
        Frame::LLMFullResponseEnd { .. } => {
            state.llm_response_started = false;
            state.flush(&mut actions);
            if state.text_agg_metrics_started && state.base.metrics_enabled() {
                emit(&mut actions, ServiceAction::PushTextAggregationMetrics);
            }
            emit(&mut actions, ServiceAction::FinishTextAggregation);
            emit(&mut actions, ServiceAction::Forward(direction));
        },
        Frame::Text(t) => {
            if t.skip_tts == Some(true) {
                emit(&mut actions, ServiceAction::Forward(direction));
            } else {
                state.hear(t, &mut actions);
            }
        },
        Frame::TTSUpdateSettings(delta) => {
            state.update_settings(delta);
            emit(&mut actions, ServiceAction::Forward(direction));
        },
        Frame::End => {
            state.flush(&mut actions);
            emit(&mut actions, ServiceAction::Forward(direction));
        },
        Frame::Interruption => {
            state.aggregator.reset();
            emit(&mut actions, ServiceAction::ResetMetrics);
            state.llm_response_started = false;
            state.text_agg_metrics_started = false;
            emit(&mut actions, ServiceAction::Forward(direction));
        },
        _ => {
            emit(&mut actions, ServiceAction::Forward(direction));
        },
    }
    proof {
        assert(service_actions_of(actions@) =~= pre.processed(
            envelope@.frame,
            direction,
            context_number,
        ).1);
    }
    actions
}

/// An interruption drops the text that was not spoken yet, so that the end of
/// the response says nothing more.
pub proof fn lemma_interruption_silences(m: TtsModel, direction: Direction, number: u64)
    ensures
        m.processed(FrameView::Interruption, direction, number).0.flushed().1 == Seq::<
            ServiceActionView,
        >::empty(),
{
    assert(trimmed(Seq::<char>::empty()).len() == 0);
}

/// The text that actions ask to be spoken.
pub open spec fn speech_of(actions: Seq<ServiceActionView>) -> Seq<char>
    decreases actions.len(),
{
    if actions.len() == 0 {
        Seq::empty()
    } else {
        speech_of(actions.drop_last()) + match actions.last() {
            ServiceActionView::RunTts { text, .. } => text,
            _ => Seq::empty(),
        }
    }
}

proof fn lemma_speech_concat(a: Seq<ServiceActionView>, b: Seq<ServiceActionView>)
    ensures
        speech_of(a + b) == speech_of(a) + speech_of(b),
    decreases b.len(),
{
    if b.len() == 0 {
        assert(a + b =~= a);
        assert(speech_of(a) + speech_of(b) =~= speech_of(a));
    } else {
        assert((a + b).drop_last() =~= a + b.drop_last());
        lemma_speech_concat(a, b.drop_last());
        assert(speech_of(a + b) =~= speech_of(a) + speech_of(b));
    }
}

proof fn lemma_segment_is_spoken(
    segment: AggregatedTextView,
    context_id: Seq<char>,
    push_text_frames: bool,
    spaces: bool,
    append: bool,
)
    ensures
        speech_of(spoken(segment, context_id, push_text_frames, spaces, append)) == segment.text,
{
    let actions = spoken(segment, context_id, push_text_frames, spaces, append);
    let front = actions.drop_last();
    reveal_with_fuel(speech_of, 2);
    if push_text_frames {
        assert(front.len() == 1 && front.last() is SendDownstream);
        assert(front.drop_last() =~= Seq::empty());
    } else {
        assert(front =~= Seq::empty());
    }
    assert(speech_of(front) =~= Seq::empty());
    assert(speech_of(actions) =~= segment.text);
}

proof fn lemma_joined_push(texts: Seq<Seq<char>>)
    requires
        texts.len() > 0,
    ensures
        joined(texts) == joined(texts.drop_last()) + texts.last(),
    decreases texts.len(),
{
    if texts.len() == 1 {
        assert(texts.skip(1) =~= Seq::empty());
        assert(texts.drop_last() =~= Seq::empty());
        assert(joined(texts) =~= joined(texts.drop_last()) + texts.last());
    } else {
        lemma_joined_push(texts.skip(1));
        assert(texts.skip(1).drop_last() =~= texts.drop_last().skip(1));
        assert(joined(texts) =~= joined(texts.drop_last()) + texts.last());
    }
}

proof fn lemma_texts_are_spoken(
    texts: Seq<Seq<char>>,
    by: Seq<char>,
    context_id: Seq<char>,
    push_text_frames: bool,
    spaces: bool,
    append: bool,
)
    ensures
        speech_of(all_spoken(labelled(texts, by), context_id, push_text_frames, spaces, append))
            == joined(texts),
    decreases texts.len(),
{
    let segments = labelled(texts, by);
    if texts.len() > 0 {
        assert(segments.drop_last() =~= labelled(texts.drop_last(), by));
        lemma_texts_are_spoken(
            texts.drop_last(),
            by,
            context_id,
            push_text_frames,
            spaces,
            append,
        );
        lemma_segment_is_spoken(segments.last(), context_id, push_text_frames, spaces, append);
        lemma_speech_concat(
            all_spoken(segments.drop_last(), context_id, push_text_frames, spaces, append),
            spoken(segments.last(), context_id, push_text_frames, spaces, append),
        );
        lemma_joined_push(texts);
    }
}

/// No text is lost on its way to speech but whitespace: a text that arrives is
/// spoken, or waits for the end of its sentence.
pub proof fn lemma_text_is_spoken_or_waits(m: TtsModel, t: TextOf<Seq<char>>)
    ensures
        solid(speech_of(m.heard(t).1)) + solid(m.heard(t).0.pending) == match m.mode {
            TextAggregationMode::Token => solid(t.text) + solid(m.pending),
            TextAggregationMode::Sentence => solid(m.pending) + solid(t.text),
        },
{
    let (after, actions) = m.heard(t);
    let begin = !m.measuring && m.base.metrics_enabled && m.mode == TextAggregationMode::Sentence;
    let first = if begin {
        seq![ServiceActionView::StartTextAggregation]
    } else {
        Seq::empty()
    };
    let second = if m.segments(t.text).len() > 0 {
        TtsModel { measuring: m.measuring || begin, ..m }.measured()
    } else {
        Seq::empty()
    };
    let third = all_spoken(
        m.segments(t.text),
        m.context_id(),
        m.push_text_frames,
        t.includes_inter_frame_spaces,
        t.append_to_context,
    );
    assert(actions == first + second + third);
    reveal_with_fuel(speech_of, 3);
    assert(speech_of(first) =~= Seq::empty());
    if second.len() > 0 {
        assert(second.drop_last().drop_last() =~= Seq::empty());
    }
    assert(speech_of(second) =~= Seq::empty());
    lemma_speech_concat(first, second);
    lemma_speech_concat(first + second, third);
    let texts = match m.mode {
        TextAggregationMode::Token => if t.text.len() == 0 {
            Seq::empty()
        } else {
            seq![t.text]
        },
        TextAggregationMode::Sentence => sentences(m.pending + t.text),
    };
    let by = match m.mode {
        TextAggregationMode::Token => "token"@,
        TextAggregationMode::Sentence => "sentence"@,
    };
    lemma_texts_are_spoken(
        texts,
        by,
        m.context_id(),
        m.push_text_frames,
        t.includes_inter_frame_spaces,
        t.append_to_context,
    );
    assert(speech_of(actions) =~= joined(texts));
    match m.mode {
        TextAggregationMode::Token => {
            reveal_with_fuel(joined, 2);
            if texts.len() > 0 {
                assert(texts.skip(1) =~= Seq::empty());
                assert(texts[0] + joined(texts.skip(1)) =~= t.text);
            } else {
                assert(t.text =~= Seq::empty());
            }
            assert(joined(texts) =~= t.text);
        },
        TextAggregationMode::Sentence => {
            lemma_sentences_lose_only_whitespace(m.pending + t.text);
            lemma_solid_concat(m.pending, t.text);
        },
    }
}

/// At the end of a response everything that waits is spoken, and nothing waits
/// any more.
pub proof fn lemma_waiting_text_is_spoken_at_the_end(m: TtsModel)
    ensures
        solid(speech_of(m.flushed().1)) == solid(m.pending),
        m.flushed().0.pending == Seq::<char>::empty(),
{
    lemma_solid_trimmed(m.pending);
    let text = trimmed(m.pending);
    if text.len() > 0 {
        lemma_segment_is_spoken(
            AggregatedTextView { text, aggregated_by: "sentence"@ },
            m.context_id(),
            m.push_text_frames,
            false,
            true,
        );
    } else {
        assert(text =~= Seq::empty());
        assert(speech_of(m.flushed().1) =~= text);
    }
}

} // verus!
