//! Which member of a document says what.
use vstd::prelude::*;

use crate::frames::ImageOf;
use crate::json::{Json, JsonNumber};
use crate::services::openai::laws::lemma_conversation_item_round_trip;
use crate::services::openai::media::{jpeg_of, jpeg_of_rgb, jpeg_of_rgba};
use crate::services::openai::realtime_events::{
    describes, reads_response, ConversationItemCreateEvent, ConversationItemTruncateEvent,
    ConversationItemView, InputAudioBufferAppendEvent, ItemContentView, ResponseCreateEvent,
    ResponseView, ServerEventView, SessionUpdateEvent, TokenDetails, Usage,
};
use crate::services::openai::realtime_state::duration_ms;
use crate::services::openai::settings::{
    AudioConfigurationView, AudioInputView, AudioOutputView, InputAudioNoiseReductionView,
    InputAudioTranscriptionView, ResponsePropertiesView, SessionPropertiesView, TurnDetectionView,
};
use crate::services::openai::stream_laws::{
    holds_float, holds_integer, holds_text, member, text_member,
};

verus! {

/// The length and the first two letters of a key. No two keys of one document
/// agree in them.
spec fn head(key: Seq<char>) -> (nat, char, char) {
    (key.len(), key[0], key[1])
}

/// A member that holds a truth value exactly where there is one.
pub open spec fn holds_truth(j: Json, key: Seq<char>, b: Option<bool>) -> bool {
    match b {
        Some(x) => member(j, key) == Some(Json::Bool(x)),
        None => member(j, key) is None,
    }
}

/// A member that holds a list of texts exactly where there is one.
pub open spec fn holds_texts(j: Json, key: Seq<char>, list: Option<Seq<Seq<char>>>) -> bool {
    match list {
        Some(texts) => member(j, key) matches Some(Json::Array(all)) && all.len() == texts.len()
            && forall|i: int|
            0 <= i < texts.len() ==> #[trigger] all[i] == Json::Text(texts[i]),
        None => member(j, key) is None,
    }
}

proof fn lemma_turn_keys()
    ensures
        head("type"@) == (4nat, 't', 'y'),
        head("threshold"@) == (9nat, 't', 'h'),
        head("prefix_padding_ms"@) == (17nat, 'p', 'r'),
        head("silence_duration_ms"@) == (19nat, 's', 'i'),
        head("eagerness"@) == (9nat, 'e', 'a'),
        head("create_response"@) == (15nat, 'c', 'r'),
        head("interrupt_response"@) == (18nat, 'i', 'n'),
{
    reveal_strlit("type");
    reveal_strlit("threshold");
    reveal_strlit("prefix_padding_ms");
    reveal_strlit("silence_duration_ms");
    reveal_strlit("eagerness");
    reveal_strlit("create_response");
    reveal_strlit("interrupt_response");
}

/// A turn detection is written with its type and those of its settings that are
/// set.
pub proof fn lemma_turn_detection_is_written(t: TurnDetectionView)
    ensures
        ({
            let j = t.json();
            match t {
                TurnDetectionView::ServerVad {
                    threshold,
                    prefix_padding_ms,
                    silence_duration_ms,
                } => {
                    &&& member(j, "type"@) == Some(Json::Text("server_vad"@))
                    &&& holds_float(j, "threshold"@, threshold)
                    &&& holds_integer(j, "prefix_padding_ms"@, prefix_padding_ms)
                    &&& holds_integer(j, "silence_duration_ms"@, silence_duration_ms)
                },
                TurnDetectionView::SemanticVad {
                    eagerness,
                    create_response,
                    interrupt_response,
                } => {
                    &&& member(j, "type"@) == Some(Json::Text("semantic_vad"@))
                    &&& holds_text(j, "eagerness"@, eagerness)
                    &&& holds_truth(j, "create_response"@, create_response)
                    &&& holds_truth(j, "interrupt_response"@, interrupt_response)
                },
            }
        }),
{
    lemma_turn_keys();
}

proof fn lemma_input_keys()
    ensures
        head("model"@) == (5nat, 'm', 'o'),
        head("language"@) == (8nat, 'l', 'a'),
        head("prompt"@) == (6nat, 'p', 'r'),
        head("transcription"@) == (13nat, 't', 'r'),
        head("noise_reduction"@) == (15nat, 'n', 'o'),
        head("turn_detection"@) == (14nat, 't', 'u'),
{
    reveal_strlit("model");
    reveal_strlit("language");
    reveal_strlit("prompt");
    reveal_strlit("transcription");
    reveal_strlit("noise_reduction");
    reveal_strlit("turn_detection");
}

/// Settings of input audio are written under their names; a turn detection that
/// is switched off is written as null, and one that is not set is left out.
pub proof fn lemma_audio_input_is_written(
    a: AudioInputView,
    t: InputAudioTranscriptionView,
    n: InputAudioNoiseReductionView,
)
    ensures
        holds_text(t.json(), "model"@, t.model),
        holds_text(t.json(), "language"@, t.language),
        holds_text(t.json(), "prompt"@, t.prompt),
        holds_text(n.json(), "type"@, n.noise_type),
        ({
            let j = a.json();
            &&& a.transcription matches Some(x) ==> member(j, "transcription"@) == Some(x.json())
            &&& a.transcription is None ==> member(j, "transcription"@) is None
            &&& a.noise_reduction matches Some(x) ==> member(j, "noise_reduction"@) == Some(
                x.json(),
            )
            &&& a.noise_reduction is None ==> member(j, "noise_reduction"@) is None
            &&& a.turn_detection matches Some(Some(x)) ==> member(j, "turn_detection"@) == Some(
                x.json(),
            )
            &&& a.turn_detection matches Some(None) ==> member(j, "turn_detection"@) == Some(
                Json::Null,
            )
            &&& a.turn_detection is None ==> member(j, "turn_detection"@) is None
        }),
{
    lemma_input_keys();
}

proof fn lemma_audio_keys()
    ensures
        head("voice"@) == (5nat, 'v', 'o'),
        head("speed"@) == (5nat, 's', 'p'),
        head("input"@) == (5nat, 'i', 'n'),
        head("output"@) == (6nat, 'o', 'u'),
{
    reveal_strlit("voice");
    reveal_strlit("speed");
    reveal_strlit("input");
    reveal_strlit("output");
}

/// Settings of audio are written under their names.
pub proof fn lemma_audio_is_written(a: AudioConfigurationView, o: AudioOutputView)
    ensures
        holds_text(o.json(), "voice"@, o.voice),
        holds_float(o.json(), "speed"@, o.speed),
        ({
            let j = a.json();
            &&& a.input matches Some(x) ==> member(j, "input"@) == Some(x.json())
            &&& a.input is None ==> member(j, "input"@) is None
            &&& a.output matches Some(x) ==> member(j, "output"@) == Some(x.json())
            &&& a.output is None ==> member(j, "output"@) is None
        }),
{
    lemma_audio_keys();
}

proof fn lemma_property_keys()
    ensures
        head("model"@) == (5nat, 'm', 'o'),
        head("output_modalities"@) == (17nat, 'o', 'u'),
        head("instructions"@) == (12nat, 'i', 'n'),
        head("audio"@) == (5nat, 'a', 'u'),
        head("tools"@) == (5nat, 't', 'o'),
        head("tool_choice"@) == (11nat, 't', 'o'),
        head("temperature"@) == (11nat, 't', 'e'),
        head("max_output_tokens"@) == (17nat, 'm', 'a'),
        head("tracing"@) == (7nat, 't', 'r'),
{
    reveal_strlit("model");
    reveal_strlit("output_modalities");
    reveal_strlit("instructions");
    reveal_strlit("audio");
    reveal_strlit("tools");
    reveal_strlit("tool_choice");
    reveal_strlit("temperature");
    reveal_strlit("max_output_tokens");
    reveal_strlit("tracing");
}

/// Properties of a session, and of a response, are written under their names, and
/// those that are not set are left out.
pub proof fn lemma_properties_are_written(p: SessionPropertiesView, r: ResponsePropertiesView)
    ensures
        ({
            let j = p.json();
            &&& holds_text(j, "model"@, p.model)
            &&& holds_texts(j, "output_modalities"@, p.output_modalities)
            &&& holds_text(j, "instructions"@, p.instructions)
            &&& p.audio matches Some(x) ==> member(j, "audio"@) == Some(x.json())
            &&& p.audio is None ==> member(j, "audio"@) is None
            &&& member(j, "tools"@) == p.tools
            &&& holds_text(j, "tool_choice"@, p.tool_choice)
            &&& member(j, "max_output_tokens"@) == p.max_output_tokens
            &&& member(j, "tracing"@) == p.tracing
        }),
        ({
            let j = r.json();
            &&& holds_texts(j, "output_modalities"@, r.output_modalities)
            &&& holds_text(j, "instructions"@, r.instructions)
            &&& member(j, "tools"@) == r.tools
            &&& holds_text(j, "tool_choice"@, r.tool_choice)
            &&& holds_float(j, "temperature"@, r.temperature)
            &&& member(j, "max_output_tokens"@) == r.max_output_tokens
        }),
{
    lemma_property_keys();
}

proof fn lemma_item_keys()
    ensures
        head("id"@) == (2nat, 'i', 'd'),
        head("type"@) == (4nat, 't', 'y'),
        head("role"@) == (4nat, 'r', 'o'),
        head("content"@) == (7nat, 'c', 'o'),
        head("call_id"@) == (7nat, 'c', 'a'),
        head("name"@) == (4nat, 'n', 'a'),
        head("arguments"@) == (9nat, 'a', 'r'),
        head("output"@) == (6nat, 'o', 'u'),
        head("status"@) == (6nat, 's', 't'),
        head("object"@) == (6nat, 'o', 'b'),
{
    reveal_strlit("id");
    reveal_strlit("type");
    reveal_strlit("role");
    reveal_strlit("content");
    reveal_strlit("call_id");
    reveal_strlit("name");
    reveal_strlit("arguments");
    reveal_strlit("output");
    reveal_strlit("status");
    reveal_strlit("object");
}

proof fn lemma_part_keys()
    ensures
        head("type"@) == (4nat, 't', 'y'),
        head("text"@) == (4nat, 't', 'e'),
        head("audio"@) == (5nat, 'a', 'u'),
        head("transcript"@) == (10nat, 't', 'r'),
        head("image_url"@) == (9nat, 'i', 'm'),
        head("detail"@) == (6nat, 'd', 'e'),
{
    reveal_strlit("type");
    reveal_strlit("text");
    reveal_strlit("audio");
    reveal_strlit("transcript");
    reveal_strlit("image_url");
    reveal_strlit("detail");
}

/// An item of a conversation, and a part of one, is written under the names of
/// its members; what it does not have is left out, and its parts stay in order.
pub proof fn lemma_items_are_written(i: ConversationItemView, c: ItemContentView)
    ensures
        ({
            let j = i.json();
            &&& member(j, "id"@) == Some(Json::Text(i.id))
            &&& member(j, "type"@) == Some(Json::Text(i.item_type))
            &&& holds_text(j, "role"@, i.role)
            &&& holds_text(j, "call_id"@, i.call_id)
            &&& holds_text(j, "name"@, i.name)
            &&& holds_text(j, "arguments"@, i.arguments)
            &&& holds_text(j, "output"@, i.output)
            &&& holds_text(j, "status"@, i.status)
            &&& holds_text(j, "object"@, i.object)
            &&& match i.content {
                Some(parts) => member(j, "content"@) matches Some(Json::Array(all)) && all.len()
                    == parts.len() && forall|k: int|
                    0 <= k < parts.len() ==> #[trigger] all[k] == parts[k].json(),
                None => member(j, "content"@) is None,
            }
        }),
        ({
            let j = c.json();
            &&& member(j, "type"@) == Some(Json::Text(c.content_type))
            &&& holds_text(j, "text"@, c.text)
            &&& holds_text(j, "audio"@, c.audio)
            &&& holds_text(j, "transcript"@, c.transcript)
            &&& holds_text(j, "image_url"@, c.image_url)
            &&& holds_text(j, "detail"@, c.detail)
        }),
{
    lemma_item_keys();
    lemma_part_keys();
}

/// The number in a member, zero where there is none.
pub open spec fn number_at(j: Json, key: Seq<char>) -> u64 {
    match member(j, key) {
        Some(Json::Number(JsonNumber::Unsigned(n))) => n,
        _ => 0,
    }
}

proof fn lemma_event_types()
    ensures
        "session.created"@.len() == 15 && "session.created"@[8] == 'c',
        "session.updated"@.len() == 15 && "session.updated"@[8] == 'u',
        "response.output_audio.delta"@.len() == 27,
        "response.output_audio.done"@.len() == 26 && "response.output_audio.done"@[16] == 'a',
        "response.output_text.delta"@.len() == 26 && "response.output_text.delta"@[16] == 't',
        "response.output_audio_transcript.delta"@.len() == 38,
        "conversation.item.added"@.len() == 23,
        "conversation.item.input_audio_transcription.completed"@.len() == 53,
        "conversation.item.input_audio_transcription.delta"@.len() == 49,
        "response.function_call_arguments.done"@.len() == 37,
        "input_audio_buffer.speech_started"@.len() == 33
            && "input_audio_buffer.speech_started"@[28] == 'a',
        "input_audio_buffer.speech_stopped"@.len() == 33
            && "input_audio_buffer.speech_stopped"@[28] == 'o',
        "response.done"@.len() == 13,
        "error"@.len() == 5,
{
    reveal_strlit("session.created");
    reveal_strlit("session.updated");
    reveal_strlit("response.output_audio.delta");
    reveal_strlit("response.output_audio.done");
    reveal_strlit("response.output_text.delta");
    reveal_strlit("response.output_audio_transcript.delta");
    reveal_strlit("conversation.item.added");
    reveal_strlit("conversation.item.input_audio_transcription.completed");
    reveal_strlit("conversation.item.input_audio_transcription.delta");
    reveal_strlit("response.function_call_arguments.done");
    reveal_strlit("input_audio_buffer.speech_started");
    reveal_strlit("input_audio_buffer.speech_stopped");
    reveal_strlit("response.done");
    reveal_strlit("error");
}

/// The type under which the server sends an event.
pub open spec fn type_sent(e: ServerEventView) -> Seq<char> {
    match e {
        ServerEventView::SessionCreated => "session.created"@,
        ServerEventView::SessionUpdated => "session.updated"@,
        ServerEventView::ResponseAudioDelta { .. } => "response.output_audio.delta"@,
        ServerEventView::ResponseAudioDone { .. } => "response.output_audio.done"@,
        ServerEventView::ResponseTextDelta { .. } => "response.output_text.delta"@,
        ServerEventView::ResponseAudioTranscriptDelta { .. } => {
            "response.output_audio_transcript.delta"@
        },
        ServerEventView::ConversationItemAdded { .. } => "conversation.item.added"@,
        ServerEventView::TranscriptionCompleted { .. } => {
            "conversation.item.input_audio_transcription.completed"@
        },
        ServerEventView::TranscriptionDelta { .. } => {
            "conversation.item.input_audio_transcription.delta"@
        },
        ServerEventView::FunctionCallArgumentsDone { .. } => {
            "response.function_call_arguments.done"@
        },
        ServerEventView::SpeechStarted { .. } => "input_audio_buffer.speech_started"@,
        ServerEventView::SpeechStopped { .. } => "input_audio_buffer.speech_stopped"@,
        ServerEventView::ResponseDone { .. } => "response.done"@,
        ServerEventView::Error { .. } => "error"@,
        ServerEventView::Unknown { event_type } => event_type,
    }
}

/// The event that a document brings is the one that its type names, with the
/// members of the document: what is missing is empty or zero. A type that no
/// event has is kept.
pub proof fn lemma_events_are_read(j: Json, e: ServerEventView)
    requires
        describes(j, e),
        member(j, "type"@) is Some,
        member(j, "type"@)->0 is Text,
    ensures
        type_sent(e) == text_member(j, "type"@),
        match e {
            ServerEventView::ResponseAudioDelta { item_id, content_index, delta } => {
                &&& item_id == text_member(j, "item_id"@)
                &&& content_index as int == number_at(j, "content_index"@) as int % 4294967296
                &&& delta == text_member(j, "delta"@)
            },
            ServerEventView::ResponseAudioDone { item_id, content_index } => {
                &&& item_id == text_member(j, "item_id"@)
                &&& content_index as int == number_at(j, "content_index"@) as int % 4294967296
            },
            ServerEventView::ResponseTextDelta { delta } => delta == text_member(j, "delta"@),
            ServerEventView::ResponseAudioTranscriptDelta { delta } => delta == text_member(
                j,
                "delta"@,
            ),
            ServerEventView::TranscriptionCompleted { transcript } => transcript == text_member(
                j,
                "transcript"@,
            ),
            ServerEventView::TranscriptionDelta { delta } => delta == text_member(j, "delta"@),
            ServerEventView::FunctionCallArgumentsDone { call_id, arguments } => {
                &&& call_id == text_member(j, "call_id"@)
                &&& arguments == text_member(j, "arguments"@)
            },
            ServerEventView::SpeechStarted { audio_start_ms, item_id } => {
                &&& audio_start_ms == number_at(j, "audio_start_ms"@)
                &&& item_id == text_member(j, "item_id"@)
            },
            ServerEventView::SpeechStopped { audio_end_ms } => audio_end_ms == number_at(
                j,
                "audio_end_ms"@,
            ),
            _ => true,
        },
{
    lemma_event_types();
}

/// Each type of event is read as that event, and as no unknown one.
pub proof fn lemma_known_events_are_not_unknown(j: Json, e: ServerEventView, kind: ServerEventView)
    requires
        describes(j, e),
        !(kind is Unknown),
        member(j, "type"@) == Some(Json::Text(type_sent(kind))),
    ensures
        !(e is Unknown),
{
    lemma_event_types();
}

/// An item that is written as such is the one that its event brings.
pub proof fn lemma_added_items_are_read(j: Json, e: ServerEventView, item: ConversationItemView)
    requires
        describes(j, e),
        member(j, "type"@) == Some(Json::Text("conversation.item.added"@)),
        member(j, "item"@) == Some(item.json()),
    ensures
        e == (ServerEventView::ConversationItemAdded { item }),
{
    lemma_event_types();
    lemma_conversation_item_round_trip(item, Seq::empty());
    let brought = e->ConversationItemAdded_item;
    let fresh = choose|fresh: Seq<char>|
        crate::services::openai::realtime_events::is_item_id(fresh)
            && #[trigger] ConversationItemView::read(item.json(), fresh) == Some(brought);
    lemma_conversation_item_round_trip(item, fresh);
}

/// An error is what its event says, member by member; the code may be missing.
pub proof fn lemma_errors_are_read(j: Json, e: ServerEventView, m: Json)
    requires
        describes(j, e),
        member(j, "type"@) == Some(Json::Text("error"@)),
        member(j, "error"@) == Some(m),
        member(m, "type"@) matches Some(Json::Text(_)),
        member(m, "message"@) matches Some(Json::Text(_)),
        member(m, "code"@) matches Some(x) ==> x is Text || x is Null,
    ensures
        e matches ServerEventView::Error { error } && error.message == text_member(m, "message"@)
            && error.error_type == text_member(m, "type"@) && error.code == (match member(
            m,
            "code"@,
        ) {
            Some(Json::Text(t)) => Some(t),
            _ => None,
        }),
{
    lemma_event_types();
}

/// A number that may be missing or null.
pub open spec fn number_or_none(j: Json, key: Seq<char>) -> Option<u32> {
    match member(j, key) {
        Some(Json::Number(JsonNumber::Unsigned(n))) => Some(n as u32),
        _ => None,
    }
}

/// Numbers of a usage are read from the members of that name.
pub proof fn lemma_usage_is_read(j: Json, u: Usage, d: Json, t: TokenDetails)
    requires
        j is Object,
        d is Object,
    ensures
        Usage::read(j) == Some(u) ==> {
            &&& u.total_tokens == number_at(j, "total_tokens"@)
            &&& u.input_tokens == number_at(j, "input_tokens"@)
            &&& u.output_tokens == number_at(j, "output_tokens"@)
            &&& u.input_token_details matches Some(x) ==> (member(j, "input_token_details"@)
                matches Some(m) && TokenDetails::read(m) == Some(x))
            &&& u.output_token_details matches Some(x) ==> (member(j, "output_token_details"@)
                matches Some(m) && TokenDetails::read(m) == Some(x))
            &&& member(j, "input_token_details"@) matches Some(Json::Object(_))
                ==> u.input_token_details is Some
        },
        TokenDetails::read(d) == Some(t) ==> {
            &&& t.cached_tokens == number_or_none(d, "cached_tokens"@)
            &&& t.text_tokens == number_or_none(d, "text_tokens"@)
            &&& t.audio_tokens == number_or_none(d, "audio_tokens"@)
        },
{
}

/// A response that is done has the id, the status and the usage of its document.
pub proof fn lemma_responses_are_read(j: Json, r: ResponseView)
    requires
        j is Object,
        reads_response(j, r),
    ensures
        member(j, "id"@) == Some(Json::Text(r.id)),
        member(j, "status"@) == Some(Json::Text(r.status)),
        r.usage matches Some(u) ==> (member(j, "usage"@) matches Some(m) && Usage::read(m) == Some(
            u,
        )),
        member(j, "usage"@) matches Some(Json::Object(_)) ==> r.usage is Some,
        member(j, "output"@) matches Some(Json::Array(list)) ==> r.output.len() == list.len(),
{
}

/// Every event of this side is written with its type, its id and what it carries.
pub proof fn lemma_own_events_are_written(
    update: SessionUpdateEvent,
    append: InputAudioBufferAppendEvent,
    create: ResponseCreateEvent,
    item: ConversationItemCreateEvent,
    truncate: ConversationItemTruncateEvent,
)
    ensures
        member(update.json(), "type"@) == Some(Json::Text(update.event_type@)),
        member(update.json(), "event_id"@) == Some(Json::Text(update.event_id@)),
        member(update.json(), "session"@) == Some(update.session@.json()),
        member(append.json(), "type"@) == Some(Json::Text(append.event_type@)),
        member(append.json(), "event_id"@) == Some(Json::Text(append.event_id@)),
        member(append.json(), "audio"@) == Some(Json::Text(append.audio@)),
        member(create.json(), "type"@) == Some(Json::Text(create.event_type@)),
        member(create.json(), "event_id"@) == Some(Json::Text(create.event_id@)),
        create.response matches Some(p) ==> member(create.json(), "response"@) == Some(
            p@.json(),
        ),
        create.response is None ==> member(create.json(), "response"@) is None,
        member(item.json(), "type"@) == Some(Json::Text(item.event_type@)),
        member(item.json(), "event_id"@) == Some(Json::Text(item.event_id@)),
        member(item.json(), "item"@) == Some(item.item@.json()),
        member(truncate.json(), "type"@) == Some(Json::Text(truncate.event_type@)),
        member(truncate.json(), "event_id"@) == Some(Json::Text(truncate.event_id@)),
        member(truncate.json(), "item_id"@) == Some(Json::Text(truncate.item_id@)),
        number_at(truncate.json(), "content_index"@) == truncate.content_index,
        number_at(truncate.json(), "audio_end_ms"@) == truncate.audio_end_ms,
{
    lemma_own_keys();
}

proof fn lemma_own_keys()
    ensures
        head("type"@) == (4nat, 't', 'y'),
        head("event_id"@) == (8nat, 'e', 'v'),
        head("session"@) == (7nat, 's', 'e'),
        head("audio"@) == (5nat, 'a', 'u'),
        head("response"@) == (8nat, 'r', 'e'),
        head("item"@) == (4nat, 'i', 't'),
        head("item_id"@) == (7nat, 'i', 't'),
        head("content_index"@) == (13nat, 'c', 'o'),
        head("audio_end_ms"@) == (12nat, 'a', 'u'),
{
    reveal_strlit("type");
    reveal_strlit("event_id");
    reveal_strlit("session");
    reveal_strlit("audio");
    reveal_strlit("response");
    reveal_strlit("item");
    reveal_strlit("item_id");
    reveal_strlit("content_index");
    reveal_strlit("audio_end_ms");
}

/// An image is encoded with all its pixels: four bytes for each if it has an
/// alpha channel, three otherwise. With fewer bytes it is refused, and the
/// encoder's own error is passed on.
pub proof fn lemma_images_are_encoded(f: ImageOf<Seq<char>, Seq<u8>>)
    ensures
        ({
            let alpha = f.format matches Some(x) && x == "RGBA"@;
            let (w, h) = f.size;
            let needed = w * h * if alpha {
                4int
            } else {
                3
            };
            if f.image.len() < needed {
                jpeg_of(f) is Err
            } else if alpha {
                match jpeg_of_rgba(f.image, w, h) {
                    Ok(data) => jpeg_of(f) matches Ok(d) && d == data,
                    Err(e) => jpeg_of(f) matches Err(x) && x == "JPEG encode error: "@ + e,
                }
            } else {
                match jpeg_of_rgb(f.image, w, h) {
                    Ok(data) => jpeg_of(f) matches Ok(d) && d == data,
                    Err(e) => jpeg_of(f) matches Err(x) && x == "JPEG encode error: "@ + e,
                }
            }
        }),
{
}

/// Audio of the server lasts a millisecond for every 48 bytes.
pub proof fn lemma_audio_lasts(total_size: usize)
    ensures
        48 * duration_ms(total_size) <= total_size,
        total_size < 48 * (duration_ms(total_size) + 1),
{
    let n = total_size as int;
    assert((n / 2) * 1000 / 24000 == n / 48);
}

} // verus!
