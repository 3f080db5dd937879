//! What holds of the events of the realtime server as a whole.
use vstd::prelude::*;

use crate::frames::{FrameView, FunctionCallOf, MetricsOf};
use crate::json::{json_text, parsed_json, Json};
use crate::runs::{gathered, lemma_gathered_concat, lemma_gathered_few};
use crate::services::openai::media::base64_decoded;
use crate::services::openai::realtime::{
    initial_properties, ClientEventView, RealtimeActionView,
};
use crate::services::openai::realtime_events::{ConversationItemView, ServerEventView};
use crate::services::openai::realtime_state::SharedModel;
use crate::services::openai::session_laws::{event_sent, events_sent};
use crate::services::openai::settings::OpenAIRealtimeSettingsView;

verus! {

/// A server event, with the time and the wall clock at which it is taken.
pub struct TakenEvent {
    pub event: ServerEventView,
    pub now: u64,
    pub now_ms: u64,
}

impl SharedModel {
    /// The state after a run of server events, and all that they call for.
    pub open spec fn events_taken(
        self,
        settings: OpenAIRealtimeSettingsView,
        events: Seq<TakenEvent>,
    ) -> (SharedModel, Seq<RealtimeActionView>)
        decreases events.len(),
    {
        if events.len() == 0 {
            (self, Seq::empty())
        } else {
            let (s, actions) = self.events_taken(settings, events.drop_last());
            let e = events.last();
            let (s, more) = s.event_taken(settings, e.event, e.now, e.now_ms);
            (s, actions + more)
        }
    }
}

/// What an event brings by itself, a run of events brings one behind the other.
proof fn lemma_run_gathers<B>(
    s: SharedModel,
    settings: OpenAIRealtimeSettingsView,
    events: Seq<TakenEvent>,
    f: spec_fn(RealtimeActionView) -> Seq<B>,
    g: spec_fn(TakenEvent) -> Seq<B>,
)
    requires
        forall|t: SharedModel, e: TakenEvent|
            gathered((#[trigger] t.event_taken(settings, e.event, e.now, e.now_ms)).1, f) == g(e),
    ensures
        gathered(s.events_taken(settings, events).1, f) == gathered(events, g),
    decreases events.len(),
{
    if events.len() > 0 {
        lemma_run_gathers(s, settings, events.drop_last(), f, g);
        let (t, actions) = s.events_taken(settings, events.drop_last());
        let e = events.last();
        lemma_gathered_concat(actions, t.event_taken(settings, e.event, e.now, e.now_ms).1, f);
    }
}

/// The text of the model that an action sends downstream.
pub open spec fn model_text_sent(a: RealtimeActionView) -> Seq<char> {
    match a {
        RealtimeActionView::SendDownstream(FrameView::LLMText(f)) => f.text,
        _ => Seq::empty(),
    }
}

/// The text of a response that an event brings, written or spoken.
pub open spec fn response_text(e: TakenEvent) -> Seq<char> {
    match e.event {
        ServerEventView::ResponseTextDelta { delta } => delta,
        ServerEventView::ResponseAudioTranscriptDelta { delta } => delta,
        _ => Seq::empty(),
    }
}

/// No text of a response is lost, changed or made up: over any run of server
/// events, the texts of the model that are sent downstream are, put one behind
/// the other, the texts of the responses.
pub proof fn lemma_response_text_is_kept(
    s: SharedModel,
    settings: OpenAIRealtimeSettingsView,
    events: Seq<TakenEvent>,
)
    ensures
        gathered(
            s.events_taken(settings, events).1,
            |a: RealtimeActionView| model_text_sent(a),
        ) == gathered(events, |e: TakenEvent| response_text(e)),
{
    let f = |a: RealtimeActionView| model_text_sent(a);
    let g = |e: TakenEvent| response_text(e);
    assert forall|t: SharedModel, e: TakenEvent|
        gathered((#[trigger] t.event_taken(settings, e.event, e.now, e.now_ms)).1, f) == g(e) by {
        let actions = t.event_taken(settings, e.event, e.now, e.now_ms).1;
        assert(actions.len() <= 4);
        lemma_gathered_few(actions, f);
        assert(gathered(actions, f) =~= g(e));
    }
    lemma_run_gathers(s, settings, events, f, g);
}

/// The spoken text that an action sends downstream, marked as spoken by the
/// service.
pub open spec fn spoken_text_sent(a: RealtimeActionView) -> Seq<(Seq<char>, Seq<char>)> {
    match a {
        RealtimeActionView::SendDownstream(FrameView::TTSText(f)) => seq![
            (f.text, f.aggregated_by),
        ],
        _ => Seq::empty(),
    }
}

/// What is spoken of a response is sent downstream as spoken text, piece by
/// piece, and nothing else is.
pub proof fn lemma_spoken_text_is_kept(
    s: SharedModel,
    settings: OpenAIRealtimeSettingsView,
    events: Seq<TakenEvent>,
)
    ensures
        gathered(
            s.events_taken(settings, events).1,
            |a: RealtimeActionView| spoken_text_sent(a),
        ) == gathered(
            events,
            |e: TakenEvent|
                match e.event {
                    ServerEventView::ResponseAudioTranscriptDelta { delta } => seq![
                        (delta, "realtime"@),
                    ],
                    _ => Seq::empty(),
                },
        ),
{
    let f = |a: RealtimeActionView| spoken_text_sent(a);
    let g = |e: TakenEvent|
        match e.event {
            ServerEventView::ResponseAudioTranscriptDelta { delta } => seq![
                (delta, "realtime"@),
            ],
            _ => Seq::empty(),
        };
    assert forall|t: SharedModel, e: TakenEvent|
        gathered((#[trigger] t.event_taken(settings, e.event, e.now, e.now_ms)).1, f) == g(e) by {
        let actions = t.event_taken(settings, e.event, e.now, e.now_ms).1;
        assert(actions.len() <= 4);
        lemma_gathered_few(actions, f);
        assert(gathered(actions, f) =~= g(e));
    }
    lemma_run_gathers(s, settings, events, f, g);
}

/// The audio that an action sends downstream: each byte with the sample rate and
/// the channels that it is sent with.
pub open spec fn audio_sent(a: RealtimeActionView) -> Seq<(u8, u32, u16)> {
    match a {
        RealtimeActionView::SendDownstream(FrameView::TTSAudioRaw(f)) => f.audio.map_values(
            |b: u8| (b, f.sample_rate, f.num_channels),
        ),
        _ => Seq::empty(),
    }
}

/// The audio that an event brings.
pub open spec fn response_audio(e: TakenEvent) -> Seq<(u8, u32, u16)> {
    match e.event {
        ServerEventView::ResponseAudioDelta { delta, .. } => match base64_decoded(delta) {
            Some(data) => data.map_values(|b: u8| (b, 24000u32, 1u16)),
            None => Seq::empty(),
        },
        _ => Seq::empty(),
    }
}

/// No audio of a response is lost or changed: over any run of server events the
/// audio sent downstream is, byte for byte, the audio that the events bring, at
/// 24000 samples in a second on one channel.
pub proof fn lemma_response_audio_is_kept(
    s: SharedModel,
    settings: OpenAIRealtimeSettingsView,
    events: Seq<TakenEvent>,
)
    ensures
        gathered(s.events_taken(settings, events).1, |a: RealtimeActionView| audio_sent(a))
            == gathered(events, |e: TakenEvent| response_audio(e)),
{
    let f = |a: RealtimeActionView| audio_sent(a);
    let g = |e: TakenEvent| response_audio(e);
    assert forall|t: SharedModel, e: TakenEvent|
        gathered((#[trigger] t.event_taken(settings, e.event, e.now, e.now_ms)).1, f) == g(e) by {
        let actions = t.event_taken(settings, e.event, e.now, e.now_ms).1;
        assert(actions.len() <= 4);
        lemma_gathered_few(actions, f);
        assert(gathered(actions, f) =~= g(e));
    }
    lemma_run_gathers(s, settings, events, f, g);
}

/// What the user said, as an action passes it on: the text, and whether it is
/// final.
pub open spec fn user_text_sent(a: RealtimeActionView) -> Seq<(Seq<char>, bool)> {
    match a {
        RealtimeActionView::SendUpstream(FrameView::Transcription(t)) => seq![
            (t.text, t.finalized),
        ],
        RealtimeActionView::SendUpstream(FrameView::InterimTranscription(t)) => seq![
            (t.text, false),
        ],
        _ => Seq::empty(),
    }
}

/// What the user said goes upstream, text by text: completed transcriptions as
/// final ones, others as interim ones, and nothing else does.
pub proof fn lemma_user_text_is_kept(
    s: SharedModel,
    settings: OpenAIRealtimeSettingsView,
    events: Seq<TakenEvent>,
)
    ensures
        gathered(s.events_taken(settings, events).1, |a: RealtimeActionView| user_text_sent(a))
            == gathered(
            events,
            |e: TakenEvent|
                match e.event {
                    ServerEventView::TranscriptionCompleted { transcript } => seq![
                        (transcript, true),
                    ],
                    ServerEventView::TranscriptionDelta { delta } => seq![(delta, false)],
                    _ => Seq::empty(),
                },
        ),
{
    let f = |a: RealtimeActionView| user_text_sent(a);
    let g = |e: TakenEvent|
        match e.event {
            ServerEventView::TranscriptionCompleted { transcript } => seq![(transcript, true)],
            ServerEventView::TranscriptionDelta { delta } => seq![(delta, false)],
            _ => Seq::empty(),
        };
    assert forall|t: SharedModel, e: TakenEvent|
        gathered((#[trigger] t.event_taken(settings, e.event, e.now, e.now_ms)).1, f) == g(e) by {
        let actions = t.event_taken(settings, e.event, e.now, e.now_ms).1;
        assert(actions.len() <= 4);
        lemma_gathered_few(actions, f);
        assert(gathered(actions, f) =~= g(e));
    }
    lemma_run_gathers(s, settings, events, f, g);
}

/// A mark of what happens in a conversation.
pub enum Mark {
    UserStarts,
    Interrupts,
    UserStops,
    AudioEnds,
    ResponseEnds,
    Fails,
    Stops,
}

/// The marks that an action sets.
pub open spec fn marks_set(a: RealtimeActionView) -> Seq<Mark> {
    match a {
        RealtimeActionView::Broadcast(FrameView::UserStartedSpeaking) => seq![Mark::UserStarts],
        RealtimeActionView::Broadcast(FrameView::Interruption) => seq![Mark::Interrupts],
        RealtimeActionView::Broadcast(FrameView::UserStoppedSpeaking) => seq![Mark::UserStops],
        RealtimeActionView::SendDownstream(FrameView::TTSStopped { .. }) => seq![Mark::AudioEnds],
        RealtimeActionView::SendDownstream(FrameView::LLMFullResponseEnd { .. }) => seq![
            Mark::ResponseEnds,
        ],
        RealtimeActionView::PushError(_) => seq![Mark::Fails],
        RealtimeActionView::Stop => seq![Mark::Stops],
        _ => Seq::empty(),
    }
}

/// The marks that an event asks for. Two errors are expected, and ask for none.
pub open spec fn marks_asked(e: TakenEvent) -> Seq<Mark> {
    match e.event {
        ServerEventView::SpeechStarted { .. } => seq![Mark::UserStarts, Mark::Interrupts],
        ServerEventView::SpeechStopped { .. } => seq![Mark::UserStops],
        ServerEventView::ResponseAudioDone { .. } => seq![Mark::AudioEnds],
        ServerEventView::ResponseDone { .. } => seq![Mark::ResponseEnds],
        ServerEventView::Error { error } => if error.code == Some("response_cancel_not_active"@)
            || error.code == Some("conversation_already_has_active_response"@) {
            Seq::empty()
        } else {
            seq![Mark::Fails, Mark::Stops]
        },
        _ => Seq::empty(),
    }
}

proof fn lemma_marks_of_an_event(
    t: SharedModel,
    settings: OpenAIRealtimeSettingsView,
    e: TakenEvent,
)
    ensures
        gathered(
            t.event_taken(settings, e.event, e.now, e.now_ms).1,
            |a: RealtimeActionView| marks_set(a),
        ) == marks_asked(e),
{
    let f = |a: RealtimeActionView| marks_set(a);
    let actions = t.event_taken(settings, e.event, e.now, e.now_ms).1;
    assert(actions.len() <= 4);
    lemma_gathered_few(actions, f);
    match e.event {
        ServerEventView::SpeechStarted { .. } => {
            assert(gathered(actions, f) =~= marks_asked(e));
        },
        ServerEventView::ResponseDone { .. } => {
            assert(gathered(actions, f) =~= marks_asked(e));
        },
        ServerEventView::Error { .. } => {
            assert(gathered(actions, f) =~= marks_asked(e));
        },
        _ => {
            assert(gathered(actions, f) =~= marks_asked(e));
        },
    }
}

/// The pipeline is told of user speech, interruptions, ends of audio and of
/// responses, and of failures, as the events report them and in their order.
pub proof fn lemma_marks_are_kept(
    s: SharedModel,
    settings: OpenAIRealtimeSettingsView,
    events: Seq<TakenEvent>,
)
    ensures
        gathered(s.events_taken(settings, events).1, |a: RealtimeActionView| marks_set(a))
            == gathered(events, |e: TakenEvent| marks_asked(e)),
{
    let f = |a: RealtimeActionView| marks_set(a);
    let g = |e: TakenEvent| marks_asked(e);
    assert forall|t: SharedModel, e: TakenEvent|
        gathered((#[trigger] t.event_taken(settings, e.event, e.now, e.now_ms)).1, f) == g(e) by {
        lemma_marks_of_an_event(t, settings, e);
    }
    lemma_run_gathers(s, settings, events, f, g);
}

/// The audio that the user may be hearing: the item and the part of it that its
/// first audio came from, when that came, and how much audio came since. There is
/// none before the first audio and after the user interrupted.
pub struct HeardAudio {
    pub item_id: Seq<char>,
    pub content_index: u32,
    pub since_ms: u64,
    pub bytes: nat,
}

/// The audio that the user may be hearing after a run of events.
pub open spec fn heard_audio(events: Seq<TakenEvent>) -> Option<HeardAudio>
    decreases events.len(),
{
    if events.len() == 0 {
        None
    } else {
        let before = heard_audio(events.drop_last());
        match events.last().event {
            ServerEventView::SpeechStarted { .. } => None,
            ServerEventView::ResponseAudioDelta { item_id, content_index, delta } => match (
                base64_decoded(delta),
                before,
            ) {
                (None, _) => before,
                (Some(data), None) => Some(
                    HeardAudio {
                        item_id,
                        content_index,
                        since_ms: events.last().now_ms,
                        bytes: data.len(),
                    },
                ),
                (Some(data), Some(h)) => Some(HeardAudio { bytes: h.bytes + data.len(), ..h }),
            },
            _ => before,
        }
    }
}

/// Where the server is told to cut an item off.
pub open spec fn cut_told(a: RealtimeActionView) -> Seq<(Seq<char>, u32, u64)> {
    match a {
        RealtimeActionView::Send(
            ClientEventView::ItemTruncate { item_id, content_index, audio_end_ms },
        ) => seq![(item_id, content_index, audio_end_ms)],
        _ => Seq::empty(),
    }
}

/// The session follows the audio that the user may be hearing.
proof fn lemma_audio_is_followed(
    s: SharedModel,
    settings: OpenAIRealtimeSettingsView,
    events: Seq<TakenEvent>,
)
    requires
        s.audio is None,
    ensures
        ({
            let audio = s.events_taken(settings, events).0.audio;
            match heard_audio(events) {
                None => audio is None,
                Some(h) => {
                    &&& audio is Some
                    &&& audio->0.item_id == h.item_id
                    &&& audio->0.content_index == h.content_index
                    &&& audio->0.start_time_ms == h.since_ms
                    &&& audio->0.total_size == if h.bytes <= usize::MAX {
                        h.bytes
                    } else {
                        usize::MAX as nat
                    }
                },
            }
        }),
    decreases events.len(),
{
    if events.len() > 0 {
        lemma_audio_is_followed(s, settings, events.drop_last());
    }
}

proof fn lemma_cuts_of_an_event(
    t: SharedModel,
    settings: OpenAIRealtimeSettingsView,
    e: TakenEvent,
)
    ensures
        gathered(
            t.event_taken(settings, e.event, e.now, e.now_ms).1,
            |a: RealtimeActionView| cut_told(a),
        ) == if e.event is SpeechStarted && t.audio is Some {
            seq![
                (
                    t.audio->0.item_id,
                    t.audio->0.content_index,
                    t.audio->0.heard_ms(e.now_ms) as u64,
                ),
            ]
        } else {
            Seq::empty()
        },
{
    let f = |a: RealtimeActionView| cut_told(a);
    let actions = t.event_taken(settings, e.event, e.now, e.now_ms).1;
    assert(actions.len() <= 4);
    lemma_gathered_few(actions, f);
    if e.event is SpeechStarted && t.audio is Some {
        assert(gathered(actions, f) =~= cut_told(actions[0]));
    } else {
        assert(gathered(actions, f) =~= Seq::empty());
    }
}

/// When the user starts to speak, the server is told to cut off the item that is
/// being heard, if there is one: where the audio that came ends, at 48 bytes a
/// millisecond, or where the time since its first audio has reached, whichever
/// is first. Nothing else cuts an item off.
pub proof fn lemma_unheard_audio_is_cut_off(
    s: SharedModel,
    settings: OpenAIRealtimeSettingsView,
    events: Seq<TakenEvent>,
    e: TakenEvent,
)
    requires
        s.audio is None,
        heard_audio(events) matches Some(h) ==> h.bytes <= usize::MAX,
    ensures
        ({
            let (after, actions) = s.events_taken(settings, events).0.event_taken(
                settings,
                e.event,
                e.now,
                e.now_ms,
            );
            let cuts = gathered(actions, |a: RealtimeActionView| cut_told(a));
            match (e.event, heard_audio(events)) {
                (ServerEventView::SpeechStarted { .. }, Some(h)) => {
                    let passed = if e.now_ms >= h.since_ms {
                        e.now_ms - h.since_ms
                    } else {
                        0
                    };
                    &&& cuts.len() == 1
                    &&& cuts[0].0 == h.item_id && cuts[0].1 == h.content_index
                    &&& cuts[0].2 <= passed && 48 * cuts[0].2 <= h.bytes
                    &&& cuts[0].2 == passed || h.bytes < 48 * (cuts[0].2 + 1)
                    &&& after.audio is None
                },
                _ => cuts.len() == 0,
            }
        }),
{
    lemma_audio_is_followed(s, settings, events);
    let t = s.events_taken(settings, events).0;
    lemma_cuts_of_an_event(t, settings, e);
    if e.event is SpeechStarted && heard_audio(events) is Some {
        let n = t.audio->0.total_size as int;
        assert((n / 2) * 1000 / 24000 == n / 48);
    }
}

/// Speech is announced where audio comes and none is being heard, and only
/// there.
pub proof fn lemma_speech_is_announced_once(
    s: SharedModel,
    settings: OpenAIRealtimeSettingsView,
    events: Seq<TakenEvent>,
    e: TakenEvent,
)
    requires
        s.audio is None,
    ensures
        ({
            let actions = s.events_taken(settings, events).0.event_taken(
                settings,
                e.event,
                e.now,
                e.now_ms,
            ).1;
            let first = heard_audio(events) is None && (e.event
                matches ServerEventView::ResponseAudioDelta { delta, .. } && base64_decoded(
                delta,
            ) is Some);
            &&& gathered(
                actions,
                |a: RealtimeActionView| speech_announced(a),
            ) == if first {
                seq![()]
            } else {
                Seq::empty()
            }
            &&& first ==> speech_announced(actions[0]).len() == 1
        }),
{
    lemma_audio_is_followed(s, settings, events);
    let t = s.events_taken(settings, events).0;
    let actions = t.event_taken(settings, e.event, e.now, e.now_ms).1;
    let f = |a: RealtimeActionView| speech_announced(a);
    assert(actions.len() <= 4);
    lemma_gathered_few(actions, f);
    assert(gathered(actions, f) =~= if t.audio is None && (e.event
        matches ServerEventView::ResponseAudioDelta { delta, .. } && base64_decoded(delta) is Some) {
        seq![()]
    } else {
        Seq::empty()
    });
}

/// Whether an action announces speech.
pub open spec fn speech_announced(a: RealtimeActionView) -> Seq<()> {
    match a {
        RealtimeActionView::SendDownstream(FrameView::TTSStarted { .. }) => seq![()],
        _ => Seq::empty(),
    }
}

/// The item of a function call whose arguments are awaited: the first that was
/// added under the id since its arguments were last complete.
pub open spec fn awaited_item(events: Seq<TakenEvent>, id: Seq<char>) -> Option<
    ConversationItemView,
>
    decreases events.len(),
{
    if events.len() == 0 {
        None
    } else {
        let before = awaited_item(events.drop_last(), id);
        match events.last().event {
            ServerEventView::ConversationItemAdded { item } => if before is None && item.item_type
                == "function_call"@ && item.call_id == Some(id) {
                Some(item)
            } else {
                before
            },
            ServerEventView::FunctionCallArgumentsDone { call_id, .. } => if call_id == id {
                None
            } else {
                before
            },
            _ => before,
        }
    }
}

proof fn lemma_awaited_items_are_pending(
    s: SharedModel,
    settings: OpenAIRealtimeSettingsView,
    events: Seq<TakenEvent>,
    id: Seq<char>,
)
    requires
        !s.pending.dom().contains(id),
    ensures
        ({
            let pending = s.events_taken(settings, events).0.pending;
            match awaited_item(events, id) {
                Some(item) => pending.dom().contains(id) && pending[id] == item,
                None => !pending.dom().contains(id),
            }
        }),
    decreases events.len(),
{
    if events.len() > 0 {
        lemma_awaited_items_are_pending(s, settings, events.drop_last(), id);
    }
}

/// The function calls that an action asks for.
pub open spec fn call_asked(a: RealtimeActionView) -> Seq<FunctionCallOf<Seq<char>, Json>> {
    match a {
        RealtimeActionView::CallFunction(c) => seq![c],
        _ => Seq::empty(),
    }
}

/// The function calls that an action announces.
pub open spec fn calls_announced(a: RealtimeActionView) -> Seq<
    FunctionCallOf<Seq<char>, Json>,
> {
    match a {
        RealtimeActionView::Broadcast(FrameView::FunctionCallsStarted(calls)) => calls,
        _ => Seq::empty(),
    }
}

/// Complete arguments call the function of the item that awaits them: announced,
/// and then called, under the item's name and the call's id, with the document
/// that the arguments say. What is no document stands for no arguments; arguments
/// that no item awaits call nothing, and neither does any other event.
pub proof fn lemma_awaited_functions_are_called(
    s: SharedModel,
    settings: OpenAIRealtimeSettingsView,
    events: Seq<TakenEvent>,
    e: TakenEvent,
)
    requires
        forall|id: Seq<char>| !#[trigger] s.pending.dom().contains(id),
    ensures
        ({
            let actions = s.events_taken(settings, events).0.event_taken(
                settings,
                e.event,
                e.now,
                e.now_ms,
            ).1;
            let calls = gathered(actions, |a: RealtimeActionView| call_asked(a));
            &&& gathered(actions, |a: RealtimeActionView| calls_announced(a)) == calls
            &&& match e.event {
                ServerEventView::FunctionCallArgumentsDone { call_id, arguments } => {
                    match awaited_item(events, call_id) {
                        Some(item) => {
                            &&& calls.len() == 1
                            &&& calls[0].tool_call_id == call_id
                            &&& calls[0].function_name == match item.name {
                                Some(name) => name,
                                None => Seq::empty(),
                            }
                            &&& parsed_json(arguments) matches Some(j) ==> calls[0].arguments == j
                            &&& parsed_json(arguments) is None ==> calls[0].arguments
                                == Json::Object(Map::empty())
                        },
                        None => calls.len() == 0,
                    }
                },
                _ => calls.len() == 0,
            }
        }),
{
    let t = s.events_taken(settings, events).0;
    let actions = t.event_taken(settings, e.event, e.now, e.now_ms).1;
    let f = |a: RealtimeActionView| call_asked(a);
    let g = |a: RealtimeActionView| calls_announced(a);
    assert(actions.len() <= 4);
    lemma_gathered_few(actions, f);
    lemma_gathered_few(actions, g);
    if let ServerEventView::FunctionCallArgumentsDone { call_id, arguments } = e.event {
        assert(!s.pending.dom().contains(call_id));
        lemma_awaited_items_are_pending(s, settings, events, call_id);
        if t.pending.dom().contains(call_id) {
            assert(gathered(actions, f) =~= call_asked(actions[1]));
            assert(gathered(actions, g) =~= call_asked(actions[1]));
        }
    }
    assert(gathered(actions, f) =~= gathered(actions, g));
}

/// Whether the server has reported an item.
pub open spec fn item_reported(events: Seq<TakenEvent>, id: Seq<char>) -> bool
    decreases events.len(),
{
    events.len() > 0 && ((events.last().event matches ServerEventView::ConversationItemAdded {
        item,
    } && item.id == id) || item_reported(events.drop_last(), id))
}

proof fn lemma_own_items_are_followed(
    s: SharedModel,
    settings: OpenAIRealtimeSettingsView,
    events: Seq<TakenEvent>,
    id: Seq<char>,
)
    ensures
        s.events_taken(settings, events).0.manual.contains(id) == (s.manual.contains(id)
            && !item_reported(events, id)),
    decreases events.len(),
{
    if events.len() > 0 {
        lemma_own_items_are_followed(s, settings, events.drop_last(), id);
    }
}

/// Whether an action begins a response.
pub open spec fn response_begun(a: RealtimeActionView) -> Seq<()> {
    match a {
        RealtimeActionView::SendDownstream(FrameView::LLMFullResponseStart { .. }) => seq![()],
        _ => Seq::empty(),
    }
}

/// An item of the assistant begins a response, once, unless this side made it and
/// the server had not reported it before. Nothing else begins a response.
pub proof fn lemma_items_of_the_assistant_begin_responses(
    s: SharedModel,
    settings: OpenAIRealtimeSettingsView,
    events: Seq<TakenEvent>,
    e: TakenEvent,
)
    ensures
        ({
            let actions = s.events_taken(settings, events).0.event_taken(
                settings,
                e.event,
                e.now,
                e.now_ms,
            ).1;
            gathered(actions, |a: RealtimeActionView| response_begun(a)).len() == match e.event {
                ServerEventView::ConversationItemAdded { item } => if item.role == Some(
                    "assistant"@,
                ) && (!s.manual.contains(item.id) || item_reported(events, item.id)) {
                    1nat
                } else {
                    0
                },
                _ => 0,
            }
        }),
{
    let actions = s.events_taken(settings, events).0.event_taken(
        settings,
        e.event,
        e.now,
        e.now_ms,
    ).1;
    assert(actions.len() <= 4);
    lemma_gathered_few(actions, |a: RealtimeActionView| response_begun(a));
    if let ServerEventView::ConversationItemAdded { item } = e.event {
        lemma_own_items_are_followed(s, settings, events, item.id);
    }
}

/// Whether the session was updated in a run of events.
pub open spec fn session_updated(events: Seq<TakenEvent>) -> bool
    decreases events.len(),
{
    events.len() > 0 && (events.last().event is SessionUpdated || session_updated(
        events.drop_last(),
    ))
}

/// Whether an action asks the server for a response.
pub open spec fn response_wanted(a: RealtimeActionView) -> Seq<()> {
    match a {
        RealtimeActionView::Send(ClientEventView::ResponseCreate(_)) => seq![()],
        _ => Seq::empty(),
    }
}

/// Whatever the events, a response that waits for the session is asked for at the
/// first update of the session, and never before or again; the session is ready
/// from that update on.
pub proof fn lemma_waiting_response_is_asked_for_at_the_update(
    s: SharedModel,
    settings: OpenAIRealtimeSettingsView,
    events: Seq<TakenEvent>,
)
    ensures
        ({
            let (after, actions) = s.events_taken(settings, events);
            &&& gathered(actions, |a: RealtimeActionView| response_wanted(a)).len()
                == if s.run_when_ready && session_updated(events) {
                1nat
            } else {
                0
            }
            &&& after.ready == (s.ready || session_updated(events))
            &&& after.run_when_ready == (s.run_when_ready && !session_updated(events))
            &&& after.completed == s.completed
            &&& after.context == s.context
            &&& after.audio_paused == s.audio_paused
        }),
    decreases events.len(),
{
    if events.len() > 0 {
        lemma_waiting_response_is_asked_for_at_the_update(s, settings, events.drop_last());
        let (t, actions) = s.events_taken(settings, events.drop_last());
        let e = events.last();
        let more = t.event_taken(settings, e.event, e.now, e.now_ms).1;
        let f = |a: RealtimeActionView| response_wanted(a);
        lemma_gathered_concat(actions, more, f);
        assert(more.len() <= 4);
        lemma_gathered_few(more, f);
    }
}

/// The measurements that an action sends downstream.
pub open spec fn measurements_sent(a: RealtimeActionView) -> Seq<MetricsOf<Seq<char>>> {
    match a {
        RealtimeActionView::SendDownstream(FrameView::Metrics(list)) => list,
        _ => Seq::empty(),
    }
}

/// A response that is done is measured before its end is told: its tokens if the
/// server says them, and the time since its beginning if that is known. Nothing
/// else is measured, and the beginning is then forgotten.
pub proof fn lemma_responses_are_measured(
    s: SharedModel,
    settings: OpenAIRealtimeSettingsView,
    e: TakenEvent,
)
    ensures
        ({
            let (after, actions) = s.event_taken(settings, e.event, e.now, e.now_ms);
            let sent = gathered(actions, |a: RealtimeActionView| measurements_sent(a));
            match e.event {
                ServerEventView::ResponseDone { response } => {
                    let n: int = if response.usage is Some {
                        1
                    } else {
                        0
                    };
                    &&& sent.len() == n + if s.processing_start is Some {
                        1int
                    } else {
                        0
                    }
                    &&& response.usage matches Some(u) ==> (sent[0] matches MetricsOf::LlmUsage {
                        model,
                        value,
                        ..
                    } && model == settings.base.model && value.prompt_tokens == u.input_tokens
                        && value.completion_tokens == u.output_tokens && value.total_tokens
                        == u.total_tokens && value.cache_read_input_tokens == (
                    match u.input_token_details {
                        Some(d) => d.cached_tokens,
                        None => None,
                    }) && value.reasoning_tokens is None && value.cache_creation_input_tokens
                        is None)
                    &&& s.processing_start matches Some(t) ==> (sent[n]
                        matches MetricsOf::Processing { model, nanos, .. } && model
                        == settings.base.model && (t <= e.now ==> nanos == e.now - t) && (t
                        > e.now ==> nanos == 0))
                    &&& after.processing_start is None
                    &&& actions.last() == RealtimeActionView::SendDownstream(
                        FrameView::LLMFullResponseEnd { skip_tts: None },
                    )
                },
                _ => sent.len() == 0 && after.processing_start == s.processing_start,
            }
        }),
{
    let actions = s.event_taken(settings, e.event, e.now, e.now_ms).1;
    let f = |a: RealtimeActionView| measurements_sent(a);
    assert(actions.len() <= 4);
    lemma_gathered_few(actions, f);
    if let ServerEventView::ResponseDone { response } = e.event {
        assert(gathered(actions, f) =~= crate::services::openai::realtime_receive::response_metrics(
            response.usage,
            settings.base.model,
            s.processing_start,
            e.now,
        ));
    }
}

/// An error is reported with its message and its code.
pub proof fn lemma_errors_are_told(
    s: SharedModel,
    settings: OpenAIRealtimeSettingsView,
    e: TakenEvent,
    i: int,
)
    requires
        0 <= i < s.event_taken(settings, e.event, e.now, e.now_ms).1.len(),
    ensures
        s.event_taken(settings, e.event, e.now, e.now_ms).1[i]
            matches RealtimeActionView::PushError(report) ==> (e.event
            matches ServerEventView::Error { error } && ({
            let before = "OpenAI Realtime error: "@.len() as int;
            let code = match error.code {
                Some(c) => c,
                None => Seq::empty(),
            };
            let end = before + error.message.len();
            &&& report.take(before) == "OpenAI Realtime error: "@
            &&& report.subrange(before, end) == error.message
            &&& report.skip(end) == " ("@ + code + ")"@
        })),
{
    if let ServerEventView::Error { error } = e.event {
        let report = crate::services::openai::realtime_receive::error_report(error);
        let before = "OpenAI Realtime error: "@.len() as int;
        let end = before + error.message.len();
        let code = match error.code {
            Some(c) => c,
            None => Seq::empty(),
        };
        assert(report.take(before) =~= "OpenAI Realtime error: "@);
        assert(report.subrange(before, end) =~= error.message);
        assert(report.skip(end) =~= " ("@ + code + ")"@);
    }
}

/// The result of a call goes, under the call's id, to the pipeline and then to
/// the server, which is then asked to go on; the call counts as completed, and
/// nothing else of the session changes.
pub proof fn lemma_results_are_handed_on(
    s: SharedModel,
    call: FunctionCallOf<Seq<char>, Json>,
    result: Json,
    id: Seq<char>,
)
    ensures
        ({
            let (after, actions) = s.function_done(call, result, id);
            &&& actions.len() == 3
            &&& actions[0] matches RealtimeActionView::Broadcast(FrameView::FunctionCallResult(f))
                && f.tool_call_id == call.tool_call_id && f.function_name == call.function_name
                && f.arguments == call.arguments && f.result == result && f.run_llm == Some(true)
            &&& actions[1] matches RealtimeActionView::Send(ClientEventView::ItemCreate(item))
                && item.id == id && item.item_type == "function_call_output"@ && item.call_id
                == Some(call.tool_call_id) && item.output == Some(
                match result {
                    Json::Text(t) => t,
                    other => json_text(other),
                },
            )
            &&& actions[2] == RealtimeActionView::Send(ClientEventView::ResponseCreate(None))
            &&& after.completed.contains(call.tool_call_id)
            &&& forall|x: Seq<char>|
                x != call.tool_call_id ==> #[trigger] after.completed.contains(x)
                    == s.completed.contains(x)
            &&& after == (SharedModel { completed: after.completed, ..s })
        }),
{
}

/// A call that was looked up is announced, and then run, as it is; it can be
/// cancelled where its function is registered so.
pub proof fn lemma_found_functions_are_run(
    s: SharedModel,
    call: FunctionCallOf<Seq<char>, Json>,
    registered: Option<bool>,
)
    ensures
        ({
            let actions = s.function_found(call, registered);
            &&& actions.len() == 2
            &&& actions[0] matches RealtimeActionView::Broadcast(
                FrameView::FunctionCallInProgress(f),
            ) && f.tool_call_id == call.tool_call_id && f.function_name == call.function_name
                && f.arguments == call.arguments && f.cancel_on_interruption == (registered == Some(
                true,
            ))
            &&& actions[1] matches RealtimeActionView::RunFunction { call: c, context } && c == call
                && (s.context is None ==> context.messages.len() == 0 && context.tools is None
                && context.tool_choice is None) && (s.context matches Some(j) ==> (
            context.tools == j.get("tools"@) && context.tool_choice == j.get("tool_choice"@) && (
            j.get("messages"@) matches Some(Json::Array(list)) ==> context.messages == list)))
        }),
{
}

/// The frames of a response and of what the user said carry no marks of their
/// own: the text is not for the context, and nothing more is known of the speaker.
pub proof fn lemma_frames_carry_no_marks(
    s: SharedModel,
    settings: OpenAIRealtimeSettingsView,
    e: TakenEvent,
    i: int,
)
    requires
        0 <= i < s.event_taken(settings, e.event, e.now, e.now_ms).1.len(),
    ensures
        match s.event_taken(settings, e.event, e.now, e.now_ms).1[i] {
            RealtimeActionView::SendDownstream(FrameView::LLMText(f)) => f.skip_tts is None
                && !f.includes_inter_frame_spaces && !f.append_to_context,
            RealtimeActionView::SendDownstream(FrameView::TTSText(f)) => f.skip_tts is None
                && !f.includes_inter_frame_spaces && !f.append_to_context && f.context_id is None,
            RealtimeActionView::SendDownstream(FrameView::TTSAudioRaw(f)) => f.context_id is None,
            RealtimeActionView::SendUpstream(FrameView::Transcription(t)) => t.user_id.len() == 0
                && t.timestamp is None && t.language is None && t.result is None && t.finalized,
            RealtimeActionView::SendUpstream(FrameView::InterimTranscription(t)) => t.user_id.len()
                == 0 && t.timestamp is None && t.language is None && t.result is None,
            _ => true,
        },
{
}

/// What is sent to the server: the properties of the session when it is created,
/// the response that waited when it is updated, and the cut when the user starts
/// to speak; nothing with any other event.
pub proof fn lemma_events_are_answered(
    s: SharedModel,
    settings: OpenAIRealtimeSettingsView,
    e: TakenEvent,
)
    ensures
        ({
            let sent = events_sent(s.event_taken(settings, e.event, e.now, e.now_ms).1);
            match e.event {
                ServerEventView::SessionCreated => sent == seq![
                    ClientEventView::SessionUpdate(initial_properties(settings)),
                ],
                ServerEventView::SessionUpdated => sent == if s.run_when_ready {
                    seq![ClientEventView::ResponseCreate(None)]
                } else {
                    Seq::empty()
                },
                ServerEventView::SpeechStarted { .. } => sent.len() == if s.audio is Some {
                    1nat
                } else {
                    0
                },
                _ => sent.len() == 0,
            }
        }),
{
    let actions = s.event_taken(settings, e.event, e.now, e.now_ms).1;
    assert(actions.len() <= 4);
    lemma_gathered_few(actions, |a: RealtimeActionView| event_sent(a));
    if e.event is SessionUpdated && !s.run_when_ready {
        assert(events_sent(actions) =~= Seq::empty());
    }
}

} // verus!
