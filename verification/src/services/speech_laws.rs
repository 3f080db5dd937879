//! What holds of speech services over runs of frames.
use vstd::prelude::*;

use crate::frames::{Direction, FrameView};
use crate::runs::{gathered, lemma_gathered_concat, lemma_gathered_few};
use crate::services::action::ServiceActionView;
use crate::services::llm::LlmModel;
use crate::services::stt::SttModel;
use crate::services::tts::TtsModel;
use crate::services::whisper::{assembled, WhisperModel};

verus! {

/// The audio that a frame brings from the user.
pub open spec fn audio_brought(f: FrameView) -> Seq<u8> {
    match f {
        FrameView::InputAudioRaw(a) => a.audio,
        _ => Seq::empty(),
    }
}

/// All audio that frames bring, first to last.
pub open spec fn all_brought(frames: Seq<FrameView>) -> Seq<u8> {
    gathered(frames, |f: FrameView| audio_brought(f))
}

/// Whether frames hold nothing but audio of the user.
pub open spec fn all_audio(frames: Seq<FrameView>) -> bool {
    forall|i: int| 0 <= i < frames.len() ==> #[trigger] frames[i] is InputAudioRaw
}

/// Whether a frame says that the user started.
pub open spec fn is_start(f: FrameView) -> bool {
    f is UserStartedSpeaking || f is VADUserStartedSpeaking
}

/// Whether a frame says that the user stopped.
pub open spec fn is_stop(f: FrameView) -> bool {
    f is UserStoppedSpeaking || f is VADUserStoppedSpeaking
}

/// The segments of audio that an action asks to be transcribed.
pub open spec fn segment_asked(a: ServiceActionView) -> Seq<Seq<u8>> {
    match a {
        ServiceActionView::Transcribe(audio) => seq![audio],
        _ => Seq::empty(),
    }
}

/// How often, and how, the frame at hand is passed on: by itself in a direction,
/// or as a copy downstream.
pub open spec fn passed_on(a: ServiceActionView) -> Seq<(Option<FrameView>, Direction)> {
    match a {
        ServiceActionView::Forward(d) => seq![(None, d)],
        ServiceActionView::SendDownstream(f) => seq![(Some(f), Direction::Downstream)],
        _ => Seq::empty(),
    }
}

impl WhisperModel {
    /// The service after a run of frames, and all that they call for.
    pub open spec fn all_processed(self, frames: Seq<FrameView>, direction: Direction) -> (
        WhisperModel,
        Seq<ServiceActionView>,
    )
        decreases frames.len(),
    {
        if frames.len() == 0 {
            (self, Seq::empty())
        } else {
            let (m, actions) = self.all_processed(frames.drop_last(), direction);
            let (m, more) = m.processed(frames.last(), direction);
            (m, actions + more)
        }
    }
}

proof fn lemma_speech_is_kept(m: WhisperModel, frames: Seq<FrameView>, direction: Direction)
    requires
        all_audio(frames),
        m.state.user_speaking,
        !m.state.muted,
    ensures
        m.all_processed(frames, direction).0 == (WhisperModel {
            audio: m.audio + all_brought(frames),
            ..m
        }),
    decreases frames.len(),
{
    if frames.len() == 0 {
        assert(m.audio + all_brought(frames) =~= m.audio);
    } else {
        let front = frames.drop_last();
        assert(frames[frames.len() - 1] is InputAudioRaw);
        assert forall|i: int| 0 <= i < front.len() implies #[trigger] front[i] is InputAudioRaw by {
            assert(frames[i] is InputAudioRaw);
        }
        lemma_speech_is_kept(m, front, direction);
        assert(m.audio + all_brought(front) + audio_brought(frames.last()) =~= m.audio
            + all_brought(frames));
    }
}

/// What the user says is transcribed whole: over any run of audio while the user
/// speaks to a service that is not muted, the stop asks for one transcription, of
/// what was kept before and then the audio of the frames, first to last. After
/// it nothing is kept. If there is no audio at all there is nothing to
/// transcribe.
pub proof fn lemma_speech_is_transcribed_whole(
    m: WhisperModel,
    frames: Seq<FrameView>,
    stop: FrameView,
    direction: Direction,
)
    requires
        all_audio(frames),
        is_stop(stop),
        m.state.user_speaking,
        !m.state.muted,
    ensures
        ({
            let mid = m.all_processed(frames, direction).0;
            let (after, actions) = mid.processed(stop, direction);
            let whole = m.audio + all_brought(frames);
            &&& gathered(actions, |a: ServiceActionView| segment_asked(a)) == if whole.len() == 0 {
                Seq::empty()
            } else {
                seq![whole]
            }
            &&& after.audio.len() == 0
            &&& !after.state.user_speaking
        }),
{
    lemma_speech_is_kept(m, frames, direction);
    let mid = m.all_processed(frames, direction).0;
    let (after, actions) = mid.processed(stop, direction);
    let f = |a: ServiceActionView| segment_asked(a);
    lemma_gathered_few(actions, f);
    assert(gathered(actions, f) =~= if mid.audio.len() == 0 {
        Seq::empty()
    } else {
        seq![mid.audio]
    });
}

proof fn lemma_kept_is_newest(m: WhisperModel, frames: Seq<FrameView>, direction: Direction)
    requires
        all_audio(frames),
        m.audio.len() == 0,
        !m.state.user_speaking,
        !m.state.muted,
    ensures
        ({
            let after = m.all_processed(frames, direction).0;
            let all = all_brought(frames);
            &&& after.state == m.state
            &&& after.audio.len() == if all.len() <= 32000 {
                all.len()
            } else {
                32000
            }
            &&& after.audio == all.skip(all.len() - after.audio.len())
        }),
    decreases frames.len(),
{
    let all = all_brought(frames);
    let after = m.all_processed(frames, direction).0;
    if frames.len() == 0 {
        assert(after.audio =~= all.skip(0));
    } else {
        let front = frames.drop_last();
        assert(frames[frames.len() - 1] is InputAudioRaw);
        assert forall|i: int| 0 <= i < front.len() implies #[trigger] front[i] is InputAudioRaw by {
            assert(frames[i] is InputAudioRaw);
        }
        lemma_kept_is_newest(m, front, direction);
        assert(after.audio =~= all.skip(all.len() - after.audio.len()));
    }
}

/// Before speech a service that is not muted keeps the end of all that it heard:
/// everything up to a second of audio (32000 bytes), and the last second beyond
/// that. Nothing is transcribed.
pub proof fn lemma_last_second_is_kept(
    m: WhisperModel,
    frames: Seq<FrameView>,
    direction: Direction,
)
    requires
        all_audio(frames),
        m.audio.len() == 0,
        !m.state.user_speaking,
        !m.state.muted,
    ensures
        ({
            let kept = m.all_processed(frames, direction).0.audio;
            let all = all_brought(frames);
            &&& kept.len() == if all.len() <= 32000 {
                all.len()
            } else {
                32000
            }
            &&& all.subrange(all.len() - kept.len(), all.len() as int) == kept
        }),
{
    lemma_kept_is_newest(m, frames, direction);
    let kept = m.all_processed(frames, direction).0.audio;
    let all = all_brought(frames);
    assert(all.subrange(all.len() - kept.len(), all.len() as int) =~= kept);
}

/// A whole utterance, from a service that holds nothing and is not muted: what is
/// transcribed at the stop is the last second of what came before the start, and
/// then everything up to the stop.
pub proof fn lemma_utterance_is_transcribed(
    m: WhisperModel,
    before: Seq<FrameView>,
    start: FrameView,
    speech: Seq<FrameView>,
    stop: FrameView,
    direction: Direction,
)
    requires
        all_audio(before),
        is_start(start),
        all_audio(speech),
        is_stop(stop),
        m.audio.len() == 0,
        !m.state.user_speaking,
        !m.state.muted,
        all_brought(speech).len() > 0,
    ensures
        ({
            let s = m.all_processed(before, direction).0.processed(start, direction).0;
            let actions = s.all_processed(speech, direction).0.processed(stop, direction).1;
            let lead = all_brought(before);
            let from: int = if lead.len() <= 32000 {
                0
            } else {
                lead.len() - 32000
            };
            gathered(actions, |a: ServiceActionView| segment_asked(a)) == seq![
                lead.skip(from) + all_brought(speech),
            ]
        }),
{
    lemma_kept_is_newest(m, before, direction);
    let s = m.all_processed(before, direction).0.processed(start, direction).0;
    lemma_speech_is_transcribed_whole(s, speech, stop, direction);
    let lead = all_brought(before);
    assert(lead.skip(lead.len() - s.audio.len()) =~= s.audio);
}

/// While the service is muted it keeps no audio and transcribes none, and an
/// interruption drops what was kept.
pub proof fn lemma_mute_and_interruption_hold(
    m: WhisperModel,
    frame: FrameView,
    direction: Direction,
)
    ensures
        ({
            let (after, actions) = m.processed(frame, direction);
            &&& m.state.muted && frame is InputAudioRaw ==> after.audio == m.audio
            &&& m.state.muted || !is_stop(frame) ==> gathered(
                actions,
                |a: ServiceActionView| segment_asked(a),
            ).len() == 0
            &&& m.state.muted && is_stop(frame) ==> after.audio == m.audio
            &&& frame is Interruption ==> after.audio.len() == 0
            &&& !(frame is InputAudioRaw || frame is Interruption || is_stop(frame)) ==> after.audio
                == m.audio
        }),
{
    let f = |a: ServiceActionView| segment_asked(a);
    lemma_gathered_few(m.processed(frame, direction).1, f);
    if m.state.muted || !is_stop(frame) {
        assert(gathered(m.processed(frame, direction).1, f) =~= Seq::empty());
    }
}

/// Both services pass every frame on exactly once: audio downstream as it came,
/// if they are to pass audio on, and any other frame in its direction.
pub proof fn lemma_frames_are_passed_on(
    w: WhisperModel,
    s: SttModel,
    frame: FrameView,
    direction: Direction,
)
    ensures
        gathered(w.processed(frame, direction).1, |a: ServiceActionView| passed_on(a))
            == if frame is InputAudioRaw {
            if w.state.audio_passthrough {
                seq![(Some(frame), Direction::Downstream)]
            } else {
                Seq::empty()
            }
        } else {
            seq![(None::<FrameView>, direction)]
        },
        gathered(s.actions(frame, direction), |a: ServiceActionView| passed_on(a))
            == if frame is InputAudioRaw {
            if s.audio_passthrough {
                seq![(Some(frame), Direction::Downstream)]
            } else {
                Seq::empty()
            }
        } else {
            seq![(None::<FrameView>, direction)]
        },
{
    let f = |a: ServiceActionView| passed_on(a);
    let e = Seq::<(Option<FrameView>, Direction)>::empty();
    let wa = w.processed(frame, direction).1;
    let sa = s.actions(frame, direction);
    lemma_gathered_few(wa, f);
    lemma_gathered_few(sa, f);
    let own = seq![(None::<FrameView>, direction)];
    let copy = seq![(Some(frame), Direction::Downstream)];
    assert(e + own =~= own);
    assert(copy + e =~= copy);
    if frame is InputAudioRaw {
        assert(gathered(wa, f) =~= if w.state.audio_passthrough {
            copy
        } else {
            e
        });
        assert(gathered(sa, f) =~= if s.audio_passthrough {
            copy
        } else {
            e
        });
    } else {
        assert(gathered(wa, f) =~= own);
        assert(gathered(sa, f) =~= own);
    }
}

/// The audio that an action asks to be recognized.
pub open spec fn audio_recognized(a: ServiceActionView) -> Seq<u8> {
    match a {
        ServiceActionView::RunStt(audio) => audio,
        _ => Seq::empty(),
    }
}

impl SttModel {
    /// All that a run of frames calls for.
    pub open spec fn all_actions(self, frames: Seq<FrameView>, direction: Direction) -> Seq<
        ServiceActionView,
    >
        decreases frames.len(),
    {
        if frames.len() == 0 {
            Seq::empty()
        } else {
            let front = frames.drop_last();
            self.all_actions(front, direction) + self.all_noted(front).actions(
                frames.last(),
                direction,
            )
        }
    }

    /// The service after a run of frames.
    pub open spec fn all_noted(self, frames: Seq<FrameView>) -> SttModel
        decreases frames.len(),
    {
        if frames.len() == 0 {
            self
        } else {
            self.all_noted(frames.drop_last()).noted(frames.last())
        }
    }
}

/// Whether frames leave a service muted that was so, or not, before.
pub open spec fn muted_after(before: bool, frames: Seq<FrameView>) -> bool
    decreases frames.len(),
{
    if frames.len() == 0 {
        before
    } else {
        match frames.last() {
            FrameView::STTMute { mute } => mute,
            _ => muted_after(before, frames.drop_last()),
        }
    }
}

/// The audio of frames that come while a service is not muted.
pub open spec fn audible(before: bool, frames: Seq<FrameView>) -> Seq<u8>
    decreases frames.len(),
{
    if frames.len() == 0 {
        Seq::empty()
    } else {
        let front = frames.drop_last();
        if muted_after(before, front) {
            audible(before, front)
        } else {
            audible(before, front) + audio_brought(frames.last())
        }
    }
}

/// Over any run of frames the audio that is recognized is, first to last, the
/// audio that comes while the last frame about it did not mute the service.
pub proof fn lemma_audible_audio_is_recognized(
    m: SttModel,
    frames: Seq<FrameView>,
    direction: Direction,
)
    ensures
        m.all_noted(frames).muted == muted_after(m.muted, frames),
        gathered(
            m.all_actions(frames, direction),
            |a: ServiceActionView| audio_recognized(a),
        ) == audible(m.muted, frames),
    decreases frames.len(),
{
    if frames.len() > 0 {
        let front = frames.drop_last();
        lemma_audible_audio_is_recognized(m, front, direction);
        let f = |a: ServiceActionView| audio_recognized(a);
        let more = m.all_noted(front).actions(frames.last(), direction);
        lemma_gathered_concat(m.all_actions(front, direction), more, f);
        lemma_gathered_few(more, f);
        assert(gathered(m.all_actions(frames, direction), f) =~= audible(m.muted, frames));
    }
}

/// Whether the user speaks, as the last frame about it says.
pub open spec fn speaking_after(before: bool, frames: Seq<FrameView>) -> bool
    decreases frames.len(),
{
    if frames.len() == 0 {
        before
    } else if is_start(frames.last()) {
        true
    } else if is_stop(frames.last()) {
        false
    } else {
        speaking_after(before, frames.drop_last())
    }
}

/// The sample rate that frames give: the first rate that is not zero stays.
pub open spec fn rate_after(before: u32, frames: Seq<FrameView>) -> u32
    decreases frames.len(),
{
    if frames.len() == 0 || rate_after(before, frames.drop_last()) != 0 {
        if frames.len() == 0 {
            before
        } else {
            rate_after(before, frames.drop_last())
        }
    } else {
        match frames.last() {
            FrameView::Start(f) => f.audio_in_sample_rate,
            _ => 0,
        }
    }
}

/// The service knows whether the user speaks, keeps the first sample rate that it
/// is given, and reports what the last start asks for.
pub proof fn lemma_frames_are_noted(m: SttModel, frames: Seq<FrameView>, last: FrameView)
    ensures
        m.all_noted(frames).user_speaking == speaking_after(m.user_speaking, frames),
        m.all_noted(frames).sample_rate == rate_after(m.sample_rate, frames),
        m.all_noted(frames).audio_passthrough == m.audio_passthrough,
        last matches FrameView::Start(f) ==> ({
            let base = m.noted(last).base;
            &&& base.metrics_enabled == f.enable_metrics
            &&& base.usage_metrics_enabled == f.enable_usage_metrics
            &&& base.report_only_initial_ttfb == f.report_only_initial_ttfb
            &&& base.name == m.base.name && base.model == m.base.model
        }),
        !(last is STTUpdateSettings) ==> m.noted(last).settings == m.settings,
        !(last is STTUpdateSettings) ==> m.noted(last).base.model == m.base.model,
    decreases frames.len(),
{
    if frames.len() > 0 {
        lemma_frames_are_noted(m, frames.drop_last(), last);
    }
}

/// A language model service pushes every frame on once, in its direction; an
/// interruption makes it forget measurements first. A start sets what is
/// measured, and only changes of settings change them.
pub proof fn lemma_model_services_push_on(m: LlmModel, frame: FrameView, direction: Direction)
    ensures
        gathered(LlmModel::actions(frame, direction), |a: ServiceActionView| passed_on(a)) == seq![
            (None::<FrameView>, direction),
        ],
        LlmModel::actions(frame, direction).contains(ServiceActionView::ResetMetrics) == (
        frame is Interruption),
        ({
            let after = m.noted(frame);
            &&& frame matches FrameView::Start(f) ==> after.base.metrics_enabled
                == f.enable_metrics && after.base.usage_metrics_enabled == f.enable_usage_metrics
                && after.base.report_only_initial_ttfb == f.report_only_initial_ttfb
            &&& !(frame is LLMUpdateSettings) ==> after.settings == m.settings && after.base.model
                == m.base.model
            &&& !(frame is LLMUpdateSettings || frame is Start) ==> after == m
            &&& after.skip_tts == m.skip_tts
        }),
{
    let actions = LlmModel::actions(frame, direction);
    let f = |a: ServiceActionView| passed_on(a);
    lemma_gathered_few(actions, f);
    let e = Seq::<(Option<FrameView>, Direction)>::empty();
    assert(e + seq![(None::<FrameView>, direction)] =~= seq![(None::<FrameView>, direction)]);
    if frame is Interruption {
        assert(actions[0] == ServiceActionView::ResetMetrics);
    }
}

/// A start sets what a speech synthesis service measures, and only changes of
/// settings change those.
pub proof fn lemma_synthesis_is_set_up(
    m: TtsModel,
    frame: FrameView,
    direction: Direction,
    number: u64,
)
    ensures
        ({
            let after = m.processed(frame, direction, number).0;
            &&& frame matches FrameView::Start(f) ==> after.base.metrics_enabled
                == f.enable_metrics && after.base.usage_metrics_enabled == f.enable_usage_metrics
                && after.base.report_only_initial_ttfb == f.report_only_initial_ttfb
            &&& !(frame is TTSUpdateSettings) ==> after.settings == m.settings && after.base.model
                == m.base.model
            &&& !(frame is TTSUpdateSettings || frame is Start) ==> after.base == m.base
            &&& after.sample_rate == m.sample_rate
            &&& frame is LLMFullResponseStart ==> after.llm_response_started
            &&& frame is LLMFullResponseEnd || frame is Interruption
                ==> !after.llm_response_started
        }),
{
}

/// Texts are assembled one behind the other.
pub proof fn lemma_texts_are_assembled(a: Seq<Seq<char>>, b: Seq<Seq<char>>, t: Seq<char>)
    ensures
        assembled(a + b) == assembled(a) + assembled(b),
        assembled(seq![t]) == t,
        assembled(Seq::<Seq<char>>::empty()).len() == 0,
    decreases b.len(),
{
    reveal_with_fuel(assembled, 2);
    assert(seq![t].drop_last() =~= Seq::empty());
    assert(assembled(seq![t]) =~= t);
    if b.len() == 0 {
        assert(a + b =~= a);
        assert(assembled(a) + assembled(b) =~= assembled(a));
    } else {
        assert((a + b).drop_last() =~= a + b.drop_last());
        lemma_texts_are_assembled(a, b.drop_last(), t);
        assert(assembled(a + b) =~= assembled(a) + assembled(b));
    }
}

} // verus!
