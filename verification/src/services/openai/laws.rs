//! What is written can be read again.
use vstd::prelude::*;

use crate::json::Json;
use crate::services::openai::realtime_events::{read_parts, ConversationItemView, ItemContentView};
use crate::services::openai::settings::{
    AudioConfigurationView, AudioInputView, AudioOutputView, InputAudioNoiseReductionView,
    InputAudioTranscriptionView, ResponsePropertiesView, SessionPropertiesView, TurnDetectionView,
};
use crate::services::openai::wire::read_texts;

verus! {

/// The length and the first two letters of a key. No two keys of one document
/// agree in them.
spec fn head(key: Seq<char>) -> (nat, char, char) {
    (key.len(), key[0], key[1])
}

proof fn lemma_turn_keys()
    ensures
        head("type"@) == (4nat, 't', 'y'),
        head("threshold"@) == (9nat, 't', 'h'),
        head("prefix_padding_ms"@) == (17nat, 'p', 'r'),
        head("silence_duration_ms"@) == (19nat, 's', 'i'),
        head("eagerness"@) == (9nat, 'e', 'a'),
        head("create_response"@) == (15nat, 'c', 'r'),
        head("interrupt_response"@) == (18nat, 'i', 'n'),
{
    reveal_strlit("type");
    reveal_strlit("threshold");
    reveal_strlit("prefix_padding_ms");
    reveal_strlit("silence_duration_ms");
    reveal_strlit("eagerness");
    reveal_strlit("create_response");
    reveal_strlit("interrupt_response");
}

/// A turn detection is read as it was written.
pub proof fn lemma_turn_detection_round_trip(t: TurnDetectionView)
    ensures
        TurnDetectionView::read(t.json()) == Some(t),
{
    lemma_turn_keys();
    reveal_strlit("server_vad");
    reveal_strlit("semantic_vad");
    assert("server_vad"@.len() != "semantic_vad"@.len());
}

proof fn lemma_content_keys()
    ensures
        head("type"@) == (4nat, 't', 'y'),
        head("text"@) == (4nat, 't', 'e'),
        head("audio"@) == (5nat, 'a', 'u'),
        head("transcript"@) == (10nat, 't', 'r'),
        head("image_url"@) == (9nat, 'i', 'm'),
        head("detail"@) == (6nat, 'd', 'e'),
{
    reveal_strlit("type");
    reveal_strlit("text");
    reveal_strlit("audio");
    reveal_strlit("transcript");
    reveal_strlit("image_url");
    reveal_strlit("detail");
}

/// A part of an item's content is read as it was written.
pub proof fn lemma_item_content_round_trip(c: ItemContentView)
    ensures
        ItemContentView::read(c.json()) == Some(c),
{
    lemma_content_keys();
}

proof fn lemma_parts_round_trip(parts: Seq<ItemContentView>)
    ensures
        read_parts(parts.map_values(|c: ItemContentView| c.json())) == Some(parts),
    decreases parts.len(),
{
    let written = parts.map_values(|c: ItemContentView| c.json());
    if parts.len() > 0 {
        let front = parts.drop_last();
        lemma_parts_round_trip(front);
        lemma_item_content_round_trip(parts.last());
        assert(written.drop_last() =~= front.map_values(|c: ItemContentView| c.json()));
        assert(front.push(parts.last()) =~= parts);
    } else {
        assert(parts =~= Seq::empty());
    }
}

proof fn lemma_item_keys()
    ensures
        head("id"@) == (2nat, 'i', 'd'),
        head("type"@) == (4nat, 't', 'y'),
        head("role"@) == (4nat, 'r', 'o'),
        head("content"@) == (7nat, 'c', 'o'),
        head("call_id"@) == (7nat, 'c', 'a'),
        head("name"@) == (4nat, 'n', 'a'),
        head("arguments"@) == (9nat, 'a', 'r'),
        head("output"@) == (6nat, 'o', 'u'),
        head("status"@) == (6nat, 's', 't'),
        head("object"@) == (6nat, 'o', 'b'),
{
    reveal_strlit("id");
    reveal_strlit("type");
    reveal_strlit("role");
    reveal_strlit("content");
    reveal_strlit("call_id");
    reveal_strlit("name");
    reveal_strlit("arguments");
    reveal_strlit("output");
    reveal_strlit("status");
    reveal_strlit("object");
}

/// An item of a conversation is read as it was written, whatever id is at hand.
pub proof fn lemma_conversation_item_round_trip(i: ConversationItemView, fresh_id: Seq<char>)
    ensures
        ConversationItemView::read(i.json(), fresh_id) == Some(i),
{
    lemma_item_keys();
    if let Some(parts) = i.content {
        lemma_parts_round_trip(parts);
    }
}

proof fn lemma_transcription_keys()
    ensures
        head("model"@) == (5nat, 'm', 'o'),
        head("language"@) == (8nat, 'l', 'a'),
        head("prompt"@) == (6nat, 'p', 'r'),
{
    reveal_strlit("model");
    reveal_strlit("language");
    reveal_strlit("prompt");
}

proof fn lemma_audio_input_keys()
    ensures
        head("transcription"@) == (13nat, 't', 'r'),
        head("noise_reduction"@) == (15nat, 'n', 'o'),
        head("turn_detection"@) == (14nat, 't', 'u'),
{
    reveal_strlit("transcription");
    reveal_strlit("noise_reduction");
    reveal_strlit("turn_detection");
}

proof fn lemma_audio_input_round_trip(a: AudioInputView)
    ensures
        AudioInputView::read(a.json()) == Some(a),
{
    lemma_audio_input_keys();
    lemma_transcription_keys();
    if let Some(Some(t)) = a.turn_detection {
        lemma_turn_detection_round_trip(t);
    }
    if let Some(t) = a.transcription {
        assert(InputAudioTranscriptionView::read(t.json()) == Some(t));
    }
    if let Some(n) = a.noise_reduction {
        assert(InputAudioNoiseReductionView::read(n.json()) == Some(n));
    }
}

proof fn lemma_audio_keys()
    ensures
        head("input"@) == (5nat, 'i', 'n'),
        head("output"@) == (6nat, 'o', 'u'),
        head("voice"@) == (5nat, 'v', 'o'),
        head("speed"@) == (5nat, 's', 'p'),
{
    reveal_strlit("input");
    reveal_strlit("output");
    reveal_strlit("voice");
    reveal_strlit("speed");
}

/// An audio configuration is read as it was written; so a disabled turn
/// detection stays disabled, and one that is left out stays left out.
pub proof fn lemma_audio_configuration_round_trip(a: AudioConfigurationView)
    ensures
        AudioConfigurationView::read(a.json()) == Some(a),
{
    lemma_audio_keys();
    if let Some(i) = a.input {
        lemma_audio_input_round_trip(i);
    }
    if let Some(x) = a.output {
        assert(AudioOutputView::read(x.json()) == Some(x));
    }
}

proof fn lemma_texts_round_trip(texts: Seq<Seq<char>>)
    ensures
        read_texts(texts.map_values(|t: Seq<char>| Json::Text(t))) == Some(texts),
    decreases texts.len(),
{
    let written = texts.map_values(|t: Seq<char>| Json::Text(t));
    if texts.len() > 0 {
        let front = texts.drop_last();
        lemma_texts_round_trip(front);
        assert(written.drop_last() =~= front.map_values(|t: Seq<char>| Json::Text(t)));
        assert(front.push(texts.last()) =~= texts);
    } else {
        assert(texts =~= Seq::empty());
    }
}

proof fn lemma_session_keys()
    ensures
        head("model"@) == (5nat, 'm', 'o'),
        head("output_modalities"@) == (17nat, 'o', 'u'),
        head("instructions"@) == (12nat, 'i', 'n'),
        head("audio"@) == (5nat, 'a', 'u'),
        head("tools"@) == (5nat, 't', 'o'),
        head("tool_choice"@) == (11nat, 't', 'o'),
        head("max_output_tokens"@) == (17nat, 'm', 'a'),
        head("tracing"@) == (7nat, 't', 'r'),
{
    reveal_strlit("model");
    reveal_strlit("output_modalities");
    reveal_strlit("instructions");
    reveal_strlit("audio");
    reveal_strlit("tools");
    reveal_strlit("tool_choice");
    reveal_strlit("max_output_tokens");
    reveal_strlit("tracing");
}

/// Session properties are read as they were written. Left out are those with a
/// null document for tools, output tokens or tracing, which reads as no value.
pub proof fn lemma_session_properties_round_trip(p: SessionPropertiesView)
    requires
        p.tools != Some(Json::Null),
        p.max_output_tokens != Some(Json::Null),
        p.tracing != Some(Json::Null),
    ensures
        SessionPropertiesView::read(p.json()) == Some(p),
{
    lemma_session_keys();
    if let Some(texts) = p.output_modalities {
        lemma_texts_round_trip(texts);
    }
    if let Some(a) = p.audio {
        lemma_audio_configuration_round_trip(a);
    }
}

proof fn lemma_response_keys()
    ensures
        head("output_modalities"@) == (17nat, 'o', 'u'),
        head("instructions"@) == (12nat, 'i', 'n'),
        head("tools"@) == (5nat, 't', 'o'),
        head("tool_choice"@) == (11nat, 't', 'o'),
        head("temperature"@) == (11nat, 't', 'e'),
        head("max_output_tokens"@) == (17nat, 'm', 'a'),
{
    lemma_session_keys();
    reveal_strlit("temperature");
}

/// Response properties are read as they were written. Left out are those with a
/// null document for tools or output tokens, which reads as no value.
pub proof fn lemma_response_properties_round_trip(p: ResponsePropertiesView)
    requires
        p.tools != Some(Json::Null),
        p.max_output_tokens != Some(Json::Null),
    ensures
        ResponsePropertiesView::read(p.json()) == Some(p),
{
    lemma_response_keys();
    if let Some(texts) = p.output_modalities {
        lemma_texts_round_trip(texts);
    }
}

} // verus!
