//! Settings of OpenAI services.
use serde_json::{Number, Value};
use vstd::prelude::*;
use vstd::string::*;

use crate::collections::ValueMap;
use crate::frames::{clone_text_opt, text_opt};
use crate::json::{
    copy_number, empty_object, float_opt, json_of, json_opt, value_as_bool, value_is_null,
    value_null, value_object, value_set, Json,
};
use crate::services::openai::wire::{
    bool_json, copy_texts_opt, copy_value, float_json, get_bool_opt, get_float_opt, get_json_opt,
    get_member, get_text, get_text_opt, get_texts_opt, get_u32_opt, holds_structure, is_structure,
    member, read_bool_opt, read_float_opt, read_json_opt, read_text, read_text_opt, read_texts_opt,
    read_u32_opt, ref_json, set_bool, set_float, set_str, set_text, set_texts, set_u32, set_value,
    text_json, texts_json, texts_opt, u32_json,
};
use crate::services::settings::{LLMSettings, LLMSettingsView};
use crate::text::text_eq;

verus! {

/// OpenAI-specific LLM settings.
#[derive(Debug)]
pub struct OpenAILLMSettings {
    pub base: LLMSettings,
    pub max_completion_tokens: Option<u32>,
    /// Members of the request that come in place of all others.
    pub extra: ValueMap,
}

/// What an [`OpenAILLMSettings`] says.
pub struct OpenAILLMSettingsView {
    pub base: LLMSettingsView,
    pub max_completion_tokens: Option<u32>,
    pub extra: Map<Seq<char>, Json>,
}

impl View for OpenAILLMSettings {
    type V = OpenAILLMSettingsView;

    open spec fn view(&self) -> OpenAILLMSettingsView {
        OpenAILLMSettingsView {
            base: self.base@,
            max_completion_tokens: self.max_completion_tokens,
            extra: self.extra@,
        }
    }
}

impl OpenAILLMSettings {
    pub fn new(base: LLMSettings) -> (r: Self)
        ensures
            r@ == (OpenAILLMSettingsView {
                base: base@,
                max_completion_tokens: None,
                extra: Map::empty(),
            }),
    {
        OpenAILLMSettings { base, max_completion_tokens: None, extra: ValueMap::new() }
    }
}

impl Default for OpenAILLMSettings {
    fn default() -> (r: Self)
        ensures
            r@ == (OpenAILLMSettingsView {
                base: LLMSettingsView::none(),
                max_completion_tokens: None,
                extra: Map::empty(),
            }),
    {
        Self::new(LLMSettings::default())
    }
}

/// Settings for the OpenAI Realtime service.
#[derive(Debug)]
pub struct OpenAIRealtimeSettings {
    pub base: LLMSettings,
    pub session_properties: SessionProperties,
}

/// What an [`OpenAIRealtimeSettings`] says.
pub struct OpenAIRealtimeSettingsView {
    pub base: LLMSettingsView,
    pub session_properties: SessionPropertiesView,
}

impl View for OpenAIRealtimeSettings {
    type V = OpenAIRealtimeSettingsView;

    open spec fn view(&self) -> OpenAIRealtimeSettingsView {
        OpenAIRealtimeSettingsView {
            base: self.base@,
            session_properties: self.session_properties@,
        }
    }
}

impl OpenAIRealtimeSettings {
    pub fn new(base: LLMSettings) -> (r: Self)
        ensures
            r@ == (OpenAIRealtimeSettingsView {
                base: base@,
                session_properties: SessionPropertiesView::none(),
            }),
    {
        OpenAIRealtimeSettings { base, session_properties: SessionProperties::default() }
    }

    /// A copy.
    pub fn copy(&self) -> (r: Self)
        ensures
            r@ == self@,
    {
        OpenAIRealtimeSettings {
            base: self.base.copy(),
            session_properties: self.session_properties.copy(),
        }
    }
}

impl Default for OpenAIRealtimeSettings {
    fn default() -> (r: Self)
        ensures
            r@ == (OpenAIRealtimeSettingsView {
                base: LLMSettingsView::none(),
                session_properties: SessionPropertiesView::none(),
            }),
    {
        Self::new(LLMSettings::default())
    }
}

/// Turn detection configuration. Tagged by its `type`.
#[derive(Debug)]
pub enum TurnDetection {
    ServerVad {
        threshold: Option<Number>,
        prefix_padding_ms: Option<u32>,
        silence_duration_ms: Option<u32>,
    },
    SemanticVad {
        eagerness: Option<String>,
        create_response: Option<bool>,
        interrupt_response: Option<bool>,
    },
}

/// What a [`TurnDetection`] says.
pub enum TurnDetectionView {
    ServerVad {
        threshold: Option<u64>,
        prefix_padding_ms: Option<u32>,
        silence_duration_ms: Option<u32>,
    },
    SemanticVad {
        eagerness: Option<Seq<char>>,
        create_response: Option<bool>,
        interrupt_response: Option<bool>,
    },
}

impl View for TurnDetection {
    type V = TurnDetectionView;

    open spec fn view(&self) -> TurnDetectionView {
        match *self {
            TurnDetection::ServerVad { threshold, prefix_padding_ms, silence_duration_ms } => {
                TurnDetectionView::ServerVad {
                    threshold: float_opt(threshold),
                    prefix_padding_ms,
                    silence_duration_ms,
                }
            },
            TurnDetection::SemanticVad { eagerness, create_response, interrupt_response } => {
                TurnDetectionView::SemanticVad {
                    eagerness: text_opt(eagerness),
                    create_response,
                    interrupt_response,
                }
            },
        }
    }
}

impl TurnDetectionView {
    /// The document that is written.
    pub open spec fn json(self) -> Json {
        match self {
            TurnDetectionView::ServerVad {
                threshold,
                prefix_padding_ms,
                silence_duration_ms,
            } => empty_object().with("type"@, Json::Text("server_vad"@)).with_some(
                "threshold"@,
                float_json(threshold),
            ).with_some("prefix_padding_ms"@, u32_json(prefix_padding_ms)).with_some(
                "silence_duration_ms"@,
                u32_json(silence_duration_ms),
            ),
            TurnDetectionView::SemanticVad {
                eagerness,
                create_response,
                interrupt_response,
            } => empty_object().with("type"@, Json::Text("semantic_vad"@)).with_some(
                "eagerness"@,
                text_json(eagerness),
            ).with_some("create_response"@, bool_json(create_response)).with_some(
                "interrupt_response"@,
                bool_json(interrupt_response),
            ),
        }
    }

    /// What a document says; nothing where it is no turn detection. An array
    /// holds the type first.
    pub open spec fn read(j: Json) -> Option<TurnDetectionView> {
        let tag = read_text(member(j, "type"@, 0));
        if !holds_structure(j, 4, 4) {
            None
        } else if tag == Some("server_vad"@) {
            let threshold = read_float_opt(member(j, "threshold"@, 1));
            let prefix_padding_ms = read_u32_opt(member(j, "prefix_padding_ms"@, 2));
            let silence_duration_ms = read_u32_opt(member(j, "silence_duration_ms"@, 3));
            if threshold is Some && prefix_padding_ms is Some && silence_duration_ms is Some {
                Some(
                    TurnDetectionView::ServerVad {
                        threshold: threshold->0,
                        prefix_padding_ms: prefix_padding_ms->0,
                        silence_duration_ms: silence_duration_ms->0,
                    },
                )
            } else {
                None
            }
        } else if tag == Some("semantic_vad"@) {
            let eagerness = read_text_opt(member(j, "eagerness"@, 1));
            let create_response = read_bool_opt(member(j, "create_response"@, 2));
            let interrupt_response = read_bool_opt(member(j, "interrupt_response"@, 3));
            if eagerness is Some && create_response is Some && interrupt_response is Some {
                Some(
                    TurnDetectionView::SemanticVad {
                        eagerness: eagerness->0,
                        create_response: create_response->0,
                        interrupt_response: interrupt_response->0,
                    },
                )
            } else {
                None
            }
        } else {
            None
        }
    }
}

impl TurnDetection {
    /// Writes it as a document.
    pub fn to_value(&self) -> (r: Value)
        ensures
            json_of(r) == self@.json(),
    {
        let mut v = value_object();
        match self {
            TurnDetection::ServerVad { threshold, prefix_padding_ms, silence_duration_ms } => {
                set_str(&mut v, "type", "server_vad");
                set_float(&mut v, "threshold", threshold);
                set_u32(&mut v, "prefix_padding_ms", prefix_padding_ms);
                set_u32(&mut v, "silence_duration_ms", silence_duration_ms);
            },
            TurnDetection::SemanticVad { eagerness, create_response, interrupt_response } => {
                set_str(&mut v, "type", "semantic_vad");
                set_text(&mut v, "eagerness", eagerness);
                set_bool(&mut v, "create_response", create_response);
                set_bool(&mut v, "interrupt_response", interrupt_response);
            },
        }
        v
    }

    /// Reads it from a document.
    pub fn from_value(v: &Value) -> (r: Option<Self>)
        ensures
            match r {
                Some(x) => TurnDetectionView::read(json_of(*v)) == Some(x@),
                None => TurnDetectionView::read(json_of(*v)) is None,
            },
    {
        if !is_structure(v, 4, 4) {
            return None;
        }
        let tag = match get_text(get_member(v, "type", 0)) {
            Some(tag) => tag,
            None => return None,
        };
        proof {
            reveal_strlit("server_vad");
            reveal_strlit("semantic_vad");
        }
        if text_eq(tag.as_str(), "server_vad") {
            let threshold = match get_float_opt(get_member(v, "threshold", 1)) {
                Some(x) => x,
                None => return None,
            };
            let prefix_padding_ms = match get_u32_opt(get_member(v, "prefix_padding_ms", 2)) {
                Some(x) => x,
                None => return None,
            };
            let silence_duration_ms = match get_u32_opt(get_member(v, "silence_duration_ms", 3)) {
                Some(x) => x,
                None => return None,
            };
            Some(TurnDetection::ServerVad { threshold, prefix_padding_ms, silence_duration_ms })
        } else if text_eq(tag.as_str(), "semantic_vad") {
            let eagerness = match get_text_opt(get_member(v, "eagerness", 1)) {
                Some(x) => x,
                None => return None,
            };
            let create_response = match get_bool_opt(get_member(v, "create_response", 2)) {
                Some(x) => x,
                None => return None,
            };
            let interrupt_response = match get_bool_opt(get_member(v, "interrupt_response", 3)) {
                Some(x) => x,
                None => return None,
            };
            Some(TurnDetection::SemanticVad { eagerness, create_response, interrupt_response })
        } else {
            None
        }
    }

    /// A copy.
    pub fn copy(&self) -> (r: Self)
        ensures
            r@ == self@,
    {
        match self {
            TurnDetection::ServerVad { threshold, prefix_padding_ms, silence_duration_ms } => {
                TurnDetection::ServerVad {
                    threshold: copy_number(threshold),
                    prefix_padding_ms: *prefix_padding_ms,
                    silence_duration_ms: *silence_duration_ms,
                }
            },
            TurnDetection::SemanticVad { eagerness, create_response, interrupt_response } => {
                TurnDetection::SemanticVad {
                    eagerness: clone_text_opt(eagerness),
                    create_response: *create_response,
                    interrupt_response: *interrupt_response,
                }
            },
        }
    }
}

/// What the turn detection of an input says: left to the service, disabled, or
/// configured.
pub open spec fn turn_choice_opt(x: Option<Option<TurnDetection>>) -> Option<
    Option<TurnDetectionView>,
> {
    match x {
        Some(Some(y)) => Some(Some(y@)),
        Some(None) => Some(None),
        None => None,
    }
}

/// The turn detection of an input as a document: null where it is disabled.
pub open spec fn turn_choice_json(x: Option<Option<TurnDetectionView>>) -> Option<Json> {
    match x {
        Some(Some(y)) => Some(y.json()),
        Some(None) => Some(Json::Null),
        None => None,
    }
}

/// The turn detection of an input: null and false disable it.
pub open spec fn read_turn_choice(m: Option<Json>) -> Option<Option<Option<TurnDetectionView>>> {
    match m {
        None => Some(None),
        Some(Json::Null) => Some(Some(None)),
        Some(Json::Bool(false)) => Some(Some(None)),
        Some(j) => match TurnDetectionView::read(j) {
            Some(x) => Some(Some(Some(x))),
            None => None,
        },
    }
}

fn set_turn_choice(v: &mut Value, key: &str, x: &Option<Option<TurnDetection>>)
    requires
        json_of(*old(v)) is Object,
    ensures
        json_of(*final(v)) == json_of(*old(v)).with_some(
            key@,
            turn_choice_json(turn_choice_opt(*x)),
        ),
{
    match x {
        Some(Some(y)) => value_set(v, key, y.to_value()),
        Some(None) => value_set(v, key, value_null()),
        None => {},
    }
}

fn get_turn_choice(v: Option<&Value>) -> (r: Option<Option<Option<TurnDetection>>>)
    ensures
        match r {
            Some(x) => read_turn_choice(ref_json(v)) == Some(turn_choice_opt(x)),
            None => read_turn_choice(ref_json(v)) is None,
        },
{
    match v {
        Some(x) => {
            if value_is_null(x) || value_as_bool(x) == Some(false) {
                return Some(Some(None));
            }
            match TurnDetection::from_value(x) {
                Some(y) => Some(Some(Some(y))),
                None => None,
            }
        },
        None => Some(None),
    }
}

fn copy_turn_choice(x: &Option<Option<TurnDetection>>) -> (r: Option<Option<TurnDetection>>)
    ensures
        turn_choice_opt(r) == turn_choice_opt(*x),
{
    match x {
        Some(Some(y)) => Some(Some(y.copy())),
        Some(None) => Some(None),
        None => None,
    }
}

/// Input audio transcription settings.
#[derive(Debug)]
pub struct InputAudioTranscription {
    pub model: Option<String>,
    pub language: Option<String>,
    pub prompt: Option<String>,
}

/// What an [`InputAudioTranscription`] says.
pub struct InputAudioTranscriptionView {
    pub model: Option<Seq<char>>,
    pub language: Option<Seq<char>>,
    pub prompt: Option<Seq<char>>,
}

impl View for InputAudioTranscription {
    type V = InputAudioTranscriptionView;

    open spec fn view(&self) -> InputAudioTranscriptionView {
        InputAudioTranscriptionView {
            model: text_opt(self.model),
            language: text_opt(self.language),
            prompt: text_opt(self.prompt),
        }
    }
}

impl InputAudioTranscriptionView {
    /// The document that is written.
    pub open spec fn json(self) -> Json {
        empty_object().with_some("model"@, text_json(self.model)).with_some("language"@, text_json(self.language)).with_some("prompt"@, text_json(self.prompt))
    }

    /// What a document says; nothing where it is no such structure.
    pub open spec fn read(j: Json) -> Option<InputAudioTranscriptionView> {
        if !holds_structure(j, 3, 3) {
            None
        } else {
            let model = read_text_opt(member(j, "model"@, 0));
            let language = read_text_opt(member(j, "language"@, 1));
            let prompt = read_text_opt(member(j, "prompt"@, 2));
            if model is Some && language is Some && prompt is Some {
                Some(
                    InputAudioTranscriptionView {
                        model: model->0,
                        language: language->0,
                        prompt: prompt->0,
                    },
                )
            } else {
                None
            }
        }
    }
}

impl InputAudioTranscription {
    /// Writes it as a document.
    pub fn to_value(&self) -> (r: Value)
        ensures
            json_of(r) == self@.json(),
    {
        let mut v = value_object();
        set_text(&mut v, "model", &self.model);
        set_text(&mut v, "language", &self.language);
        set_text(&mut v, "prompt", &self.prompt);
        v
    }

    /// Reads it from a document.
    pub fn from_value(v: &Value) -> (r: Option<Self>)
        ensures
            match r {
                Some(x) => InputAudioTranscriptionView::read(json_of(*v)) == Some(x@),
                None => InputAudioTranscriptionView::read(json_of(*v)) is None,
            },
    {
        if !is_structure(v, 3, 3) {
            return None;
        }
        let model = match get_text_opt(get_member(v, "model", 0)) {
            Some(x) => x,
            None => return None,
        };
        let language = match get_text_opt(get_member(v, "language", 1)) {
            Some(x) => x,
            None => return None,
        };
        let prompt = match get_text_opt(get_member(v, "prompt", 2)) {
            Some(x) => x,
            None => return None,
        };
        Some(InputAudioTranscription { model, language, prompt })
    }

    /// A copy.
    pub fn copy(&self) -> (r: Self)
        ensures
            r@ == self@,
    {
        InputAudioTranscription {
            model: clone_text_opt(&self.model),
            language: clone_text_opt(&self.language),
            prompt: clone_text_opt(&self.prompt),
        }
    }
}

/// What an optional [`InputAudioTranscription`] says.
pub open spec fn input_audio_transcription_opt(x: Option<InputAudioTranscription>) -> Option<InputAudioTranscriptionView> {
    match x {
        Some(y) => Some(y@),
        None => None,
    }
}

/// An optional [`InputAudioTranscription`] as a document.
pub open spec fn input_audio_transcription_json(x: Option<InputAudioTranscriptionView>) -> Option<Json> {
    match x {
        Some(y) => Some(y.json()),
        None => None,
    }
}

/// An optional [`InputAudioTranscription`]: missing, null or the structure.
pub open spec fn read_input_audio_transcription_opt(m: Option<Json>) -> Option<Option<InputAudioTranscriptionView>> {
    match m {
        None => Some(None),
        Some(Json::Null) => Some(None),
        Some(j) => match InputAudioTranscriptionView::read(j) {
            Some(x) => Some(Some(x)),
            None => None,
        },
    }
}

fn set_input_audio_transcription(v: &mut Value, key: &str, x: &Option<InputAudioTranscription>)
    requires
        json_of(*old(v)) is Object,
    ensures
        json_of(*final(v)) == json_of(*old(v)).with_some(key@, input_audio_transcription_json(input_audio_transcription_opt(*x))),
{
    if let Some(y) = x {
        value_set(v, key, y.to_value());
    }
}

fn get_input_audio_transcription_opt(v: Option<&Value>) -> (r: Option<Option<InputAudioTranscription>>)
    ensures
        match r {
            Some(x) => read_input_audio_transcription_opt(ref_json(v)) == Some(input_audio_transcription_opt(x)),
            None => read_input_audio_transcription_opt(ref_json(v)) is None,
        },
{
    match v {
        Some(x) => {
            if value_is_null(x) {
                return Some(None);
            }
            match InputAudioTranscription::from_value(x) {
                Some(y) => Some(Some(y)),
                None => None,
            }
        },
        None => Some(None),
    }
}

fn copy_input_audio_transcription(x: &Option<InputAudioTranscription>) -> (r: Option<InputAudioTranscription>)
    ensures
        input_audio_transcription_opt(r) == input_audio_transcription_opt(*x),
{
    match x {
        Some(y) => Some(y.copy()),
        None => None,
    }
}

/// Noise reduction configuration.
#[derive(Debug)]
pub struct InputAudioNoiseReduction {
    pub noise_type: Option<String>,
}

/// What an [`InputAudioNoiseReduction`] says.
pub struct InputAudioNoiseReductionView {
    pub noise_type: Option<Seq<char>>,
}

impl View for InputAudioNoiseReduction {
    type V = InputAudioNoiseReductionView;

    open spec fn view(&self) -> InputAudioNoiseReductionView {
        InputAudioNoiseReductionView {
            noise_type: text_opt(self.noise_type),
        }
    }
}

impl InputAudioNoiseReductionView {
    /// The document that is written.
    pub open spec fn json(self) -> Json {
        empty_object().with_some("type"@, text_json(self.noise_type))
    }

    /// What a document says; nothing where it is no such structure.
    pub open spec fn read(j: Json) -> Option<InputAudioNoiseReductionView> {
        if !holds_structure(j, 1, 1) {
            None
        } else {
            let noise_type = read_text_opt(member(j, "type"@, 0));
            if noise_type is Some {
                Some(
                    InputAudioNoiseReductionView {
                        noise_type: noise_type->0,
                    },
                )
            } else {
                None
            }
        }
    }
}

impl InputAudioNoiseReduction {
    /// Writes it as a document.
    pub fn to_value(&self) -> (r: Value)
        ensures
            json_of(r) == self@.json(),
    {
        let mut v = value_object();
        set_text(&mut v, "type", &self.noise_type);
        v
    }

    /// Reads it from a document.
    pub fn from_value(v: &Value) -> (r: Option<Self>)
        ensures
            match r {
                Some(x) => InputAudioNoiseReductionView::read(json_of(*v)) == Some(x@),
                None => InputAudioNoiseReductionView::read(json_of(*v)) is None,
            },
    {
        if !is_structure(v, 1, 1) {
            return None;
        }
        let noise_type = match get_text_opt(get_member(v, "type", 0)) {
            Some(x) => x,
            None => return None,
        };
        Some(InputAudioNoiseReduction { noise_type })
    }

    /// A copy.
    pub fn copy(&self) -> (r: Self)
        ensures
            r@ == self@,
    {
        InputAudioNoiseReduction {
            noise_type: clone_text_opt(&self.noise_type),
        }
    }
}

/// What an optional [`InputAudioNoiseReduction`] says.
pub open spec fn input_audio_noise_reduction_opt(x: Option<InputAudioNoiseReduction>) -> Option<InputAudioNoiseReductionView> {
    match x {
        Some(y) => Some(y@),
        None => None,
    }
}

/// An optional [`InputAudioNoiseReduction`] as a document.
pub open spec fn input_audio_noise_reduction_json(x: Option<InputAudioNoiseReductionView>) -> Option<Json> {
    match x {
        Some(y) => Some(y.json()),
        None => None,
    }
}

/// An optional [`InputAudioNoiseReduction`]: missing, null or the structure.
pub open spec fn read_input_audio_noise_reduction_opt(m: Option<Json>) -> Option<Option<InputAudioNoiseReductionView>> {
    match m {
        None => Some(None),
        Some(Json::Null) => Some(None),
        Some(j) => match InputAudioNoiseReductionView::read(j) {
            Some(x) => Some(Some(x)),
            None => None,
        },
    }
}

fn set_input_audio_noise_reduction(v: &mut Value, key: &str, x: &Option<InputAudioNoiseReduction>)
    requires
        json_of(*old(v)) is Object,
    ensures
        json_of(*final(v)) == json_of(*old(v)).with_some(key@, input_audio_noise_reduction_json(input_audio_noise_reduction_opt(*x))),
{
    if let Some(y) = x {
        value_set(v, key, y.to_value());
    }
}

fn get_input_audio_noise_reduction_opt(v: Option<&Value>) -> (r: Option<Option<InputAudioNoiseReduction>>)
    ensures
        match r {
            Some(x) => read_input_audio_noise_reduction_opt(ref_json(v)) == Some(input_audio_noise_reduction_opt(x)),
            None => read_input_audio_noise_reduction_opt(ref_json(v)) is None,
        },
{
    match v {
        Some(x) => {
            if value_is_null(x) {
                return Some(None);
            }
            match InputAudioNoiseReduction::from_value(x) {
                Some(y) => Some(Some(y)),
                None => None,
            }
        },
        None => Some(None),
    }
}

fn copy_input_audio_noise_reduction(x: &Option<InputAudioNoiseReduction>) -> (r: Option<InputAudioNoiseReduction>)
    ensures
        input_audio_noise_reduction_opt(r) == input_audio_noise_reduction_opt(*x),
{
    match x {
        Some(y) => Some(y.copy()),
        None => None,
    }
}

/// Output audio configuration.
#[derive(Debug)]
pub struct AudioOutput {
    pub voice: Option<String>,
    pub speed: Option<Number>,
}

/// What an [`AudioOutput`] says.
pub struct AudioOutputView {
    pub voice: Option<Seq<char>>,
    pub speed: Option<u64>,
}

impl View for AudioOutput {
    type V = AudioOutputView;

    open spec fn view(&self) -> AudioOutputView {
        AudioOutputView {
            voice: text_opt(self.voice),
            speed: float_opt(self.speed),
        }
    }
}

impl AudioOutputView {
    /// Without any value.
    pub open spec fn none() -> AudioOutputView {
        AudioOutputView { voice: None, speed: None }
    }

    /// The document that is written.
    pub open spec fn json(self) -> Json {
        empty_object().with_some("voice"@, text_json(self.voice)).with_some("speed"@, float_json(self.speed))
    }

    /// What a document says; nothing where it is no such structure.
    pub open spec fn read(j: Json) -> Option<AudioOutputView> {
        if !holds_structure(j, 2, 2) {
            None
        } else {
            let voice = read_text_opt(member(j, "voice"@, 0));
            let speed = read_float_opt(member(j, "speed"@, 1));
            if voice is Some && speed is Some {
                Some(
                    AudioOutputView {
                        voice: voice->0,
                        speed: speed->0,
                    },
                )
            } else {
                None
            }
        }
    }
}

impl Default for AudioOutput {
    fn default() -> (r: Self)
        ensures
            r@ == AudioOutputView::none(),
    {
        AudioOutput { voice: None, speed: None }
    }
}

impl AudioOutput {
    /// Writes it as a document.
    pub fn to_value(&self) -> (r: Value)
        ensures
            json_of(r) == self@.json(),
    {
        let mut v = value_object();
        set_text(&mut v, "voice", &self.voice);
        set_float(&mut v, "speed", &self.speed);
        v
    }

    /// Reads it from a document.
    pub fn from_value(v: &Value) -> (r: Option<Self>)
        ensures
            match r {
                Some(x) => AudioOutputView::read(json_of(*v)) == Some(x@),
                None => AudioOutputView::read(json_of(*v)) is None,
            },
    {
        if !is_structure(v, 2, 2) {
            return None;
        }
        let voice = match get_text_opt(get_member(v, "voice", 0)) {
            Some(x) => x,
            None => return None,
        };
        let speed = match get_float_opt(get_member(v, "speed", 1)) {
            Some(x) => x,
            None => return None,
        };
        Some(AudioOutput { voice, speed })
    }

    /// A copy.
    pub fn copy(&self) -> (r: Self)
        ensures
            r@ == self@,
    {
        AudioOutput {
            voice: clone_text_opt(&self.voice),
            speed: copy_number(&self.speed),
        }
    }
}

/// What an optional [`AudioOutput`] says.
pub open spec fn audio_output_opt(x: Option<AudioOutput>) -> Option<AudioOutputView> {
    match x {
        Some(y) => Some(y@),
        None => None,
    }
}

/// An optional [`AudioOutput`] as a document.
pub open spec fn audio_output_json(x: Option<AudioOutputView>) -> Option<Json> {
    match x {
        Some(y) => Some(y.json()),
        None => None,
    }
}

/// An optional [`AudioOutput`]: missing, null or the structure.
pub open spec fn read_audio_output_opt(m: Option<Json>) -> Option<Option<AudioOutputView>> {
    match m {
        None => Some(None),
        Some(Json::Null) => Some(None),
        Some(j) => match AudioOutputView::read(j) {
            Some(x) => Some(Some(x)),
            None => None,
        },
    }
}

fn set_audio_output(v: &mut Value, key: &str, x: &Option<AudioOutput>)
    requires
        json_of(*old(v)) is Object,
    ensures
        json_of(*final(v)) == json_of(*old(v)).with_some(key@, audio_output_json(audio_output_opt(*x))),
{
    if let Some(y) = x {
        value_set(v, key, y.to_value());
    }
}

fn get_audio_output_opt(v: Option<&Value>) -> (r: Option<Option<AudioOutput>>)
    ensures
        match r {
            Some(x) => read_audio_output_opt(ref_json(v)) == Some(audio_output_opt(x)),
            None => read_audio_output_opt(ref_json(v)) is None,
        },
{
    match v {
        Some(x) => {
            if value_is_null(x) {
                return Some(None);
            }
            match AudioOutput::from_value(x) {
                Some(y) => Some(Some(y)),
                None => None,
            }
        },
        None => Some(None),
    }
}

fn copy_audio_output(x: &Option<AudioOutput>) -> (r: Option<AudioOutput>)
    ensures
        audio_output_opt(r) == audio_output_opt(*x),
{
    match x {
        Some(y) => Some(y.copy()),
        None => None,
    }
}

/// Input audio configuration.
#[derive(Debug)]
pub struct AudioInput {
    pub transcription: Option<InputAudioTranscription>,
    pub noise_reduction: Option<InputAudioNoiseReduction>,
    /// Turn detection configuration.
    /// - `None`: the field is left out (the service chooses).
    /// - `Some(None)`: null (turn detection is disabled).
    /// - `Some(Some(td))`: the given turn detection.
    pub turn_detection: Option<Option<TurnDetection>>,
}

/// What an [`AudioInput`] says.
pub struct AudioInputView {
    pub transcription: Option<InputAudioTranscriptionView>,
    pub noise_reduction: Option<InputAudioNoiseReductionView>,
    pub turn_detection: Option<Option<TurnDetectionView>>,
}

impl View for AudioInput {
    type V = AudioInputView;

    open spec fn view(&self) -> AudioInputView {
        AudioInputView {
            transcription: input_audio_transcription_opt(self.transcription),
            noise_reduction: input_audio_noise_reduction_opt(self.noise_reduction),
            turn_detection: turn_choice_opt(self.turn_detection),
        }
    }
}

impl AudioInputView {
    /// Without any value.
    pub open spec fn none() -> AudioInputView {
        AudioInputView { transcription: None, noise_reduction: None, turn_detection: None }
    }

    /// The document that is written.
    pub open spec fn json(self) -> Json {
        empty_object().with_some("transcription"@, input_audio_transcription_json(self.transcription)).with_some("noise_reduction"@, input_audio_noise_reduction_json(self.noise_reduction)).with_some("turn_detection"@, turn_choice_json(self.turn_detection))
    }

    /// What a document says; nothing where it is no such structure.
    pub open spec fn read(j: Json) -> Option<AudioInputView> {
        if !holds_structure(j, 2, 3) {
            None
        } else {
            let transcription = read_input_audio_transcription_opt(member(j, "transcription"@, 0));
            let noise_reduction = read_input_audio_noise_reduction_opt(member(j, "noise_reduction"@, 1));
            let turn_detection = read_turn_choice(member(j, "turn_detection"@, 2));
            if transcription is Some && noise_reduction is Some && turn_detection is Some {
                Some(
                    AudioInputView {
                        transcription: transcription->0,
                        noise_reduction: noise_reduction->0,
                        turn_detection: turn_detection->0,
                    },
                )
            } else {
                None
            }
        }
    }
}

impl Default for AudioInput {
    fn default() -> (r: Self)
        ensures
            r@ == AudioInputView::none(),
    {
        AudioInput { transcription: None, noise_reduction: None, turn_detection: None }
    }
}

impl AudioInput {
    /// Writes it as a document.
    pub fn to_value(&self) -> (r: Value)
        ensures
            json_of(r) == self@.json(),
    {
        let mut v = value_object();
        set_input_audio_transcription(&mut v, "transcription", &self.transcription);
        set_input_audio_noise_reduction(&mut v, "noise_reduction", &self.noise_reduction);
        set_turn_choice(&mut v, "turn_detection", &self.turn_detection);
        v
    }

    /// Reads it from a document.
    pub fn from_value(v: &Value) -> (r: Option<Self>)
        ensures
            match r {
                Some(x) => AudioInputView::read(json_of(*v)) == Some(x@),
                None => AudioInputView::read(json_of(*v)) is None,
            },
    {
        if !is_structure(v, 2, 3) {
            return None;
        }
        let transcription = match get_input_audio_transcription_opt(get_member(v, "transcription", 0)) {
            Some(x) => x,
            None => return None,
        };
        let noise_reduction = match get_input_audio_noise_reduction_opt(get_member(v, "noise_reduction", 1)) {
            Some(x) => x,
            None => return None,
        };
        let turn_detection = match get_turn_choice(get_member(v, "turn_detection", 2)) {
            Some(x) => x,
            None => return None,
        };
        Some(AudioInput { transcription, noise_reduction, turn_detection })
    }

    /// A copy.
    pub fn copy(&self) -> (r: Self)
        ensures
            r@ == self@,
    {
        AudioInput {
            transcription: copy_input_audio_transcription(&self.transcription),
            noise_reduction: copy_input_audio_noise_reduction(&self.noise_reduction),
            turn_detection: copy_turn_choice(&self.turn_detection),
        }
    }
}

/// What an optional [`AudioInput`] says.
pub open spec fn audio_input_opt(x: Option<AudioInput>) -> Option<AudioInputView> {
    match x {
        Some(y) => Some(y@),
        None => None,
    }
}

/// An optional [`AudioInput`] as a document.
pub open spec fn audio_input_json(x: Option<AudioInputView>) -> Option<Json> {
    match x {
        Some(y) => Some(y.json()),
        None => None,
    }
}

/// An optional [`AudioInput`]: missing, null or the structure.
pub open spec fn read_audio_input_opt(m: Option<Json>) -> Option<Option<AudioInputView>> {
    match m {
        None => Some(None),
        Some(Json::Null) => Some(None),
        Some(j) => match AudioInputView::read(j) {
            Some(x) => Some(Some(x)),
            None => None,
        },
    }
}

fn set_audio_input(v: &mut Value, key: &str, x: &Option<AudioInput>)
    requires
        json_of(*old(v)) is Object,
    ensures
        json_of(*final(v)) == json_of(*old(v)).with_some(key@, audio_input_json(audio_input_opt(*x))),
{
    if let Some(y) = x {
        value_set(v, key, y.to_value());
    }
}

fn get_audio_input_opt(v: Option<&Value>) -> (r: Option<Option<AudioInput>>)
    ensures
        match r {
            Some(x) => read_audio_input_opt(ref_json(v)) == Some(audio_input_opt(x)),
            None => read_audio_input_opt(ref_json(v)) is None,
        },
{
    match v {
        Some(x) => {
            if value_is_null(x) {
                return Some(None);
            }
            match AudioInput::from_value(x) {
                Some(y) => Some(Some(y)),
                None => None,
            }
        },
        None => Some(None),
    }
}

fn copy_audio_input(x: &Option<AudioInput>) -> (r: Option<AudioInput>)
    ensures
        audio_input_opt(r) == audio_input_opt(*x),
{
    match x {
        Some(y) => Some(y.copy()),
        None => None,
    }
}

/// Audio configuration for a session.
#[derive(Debug)]
pub struct AudioConfiguration {
    pub input: Option<AudioInput>,
    pub output: Option<AudioOutput>,
}

/// What an [`AudioConfiguration`] says.
pub struct AudioConfigurationView {
    pub input: Option<AudioInputView>,
    pub output: Option<AudioOutputView>,
}

impl View for AudioConfiguration {
    type V = AudioConfigurationView;

    open spec fn view(&self) -> AudioConfigurationView {
        AudioConfigurationView {
            input: audio_input_opt(self.input),
            output: audio_output_opt(self.output),
        }
    }
}

impl AudioConfigurationView {
    /// Without any value.
    pub open spec fn none() -> AudioConfigurationView {
        AudioConfigurationView { input: None, output: None }
    }

    /// The document that is written.
    pub open spec fn json(self) -> Json {
        empty_object().with_some("input"@, audio_input_json(self.input)).with_some("output"@, audio_output_json(self.output))
    }

    /// What a document says; nothing where it is no such structure.
    pub open spec fn read(j: Json) -> Option<AudioConfigurationView> {
        if !holds_structure(j, 2, 2) {
            None
        } else {
            let input = read_audio_input_opt(member(j, "input"@, 0));
            let output = read_audio_output_opt(member(j, "output"@, 1));
            if input is Some && output is Some {
                Some(
                    AudioConfigurationView {
                        input: input->0,
                        output: output->0,
                    },
                )
            } else {
                None
            }
        }
    }
}

impl Default for AudioConfiguration {
    fn default() -> (r: Self)
        ensures
            r@ == AudioConfigurationView::none(),
    {
        AudioConfiguration { input: None, output: None }
    }
}

impl AudioConfiguration {
    /// Writes it as a document.
    pub fn to_value(&self) -> (r: Value)
        ensures
            json_of(r) == self@.json(),
    {
        let mut v = value_object();
        set_audio_input(&mut v, "input", &self.input);
        set_audio_output(&mut v, "output", &self.output);
        v
    }

    /// Reads it from a document.
    pub fn from_value(v: &Value) -> (r: Option<Self>)
        ensures
            match r {
                Some(x) => AudioConfigurationView::read(json_of(*v)) == Some(x@),
                None => AudioConfigurationView::read(json_of(*v)) is None,
            },
    {
        if !is_structure(v, 2, 2) {
            return None;
        }
        let input = match get_audio_input_opt(get_member(v, "input", 0)) {
            Some(x) => x,
            None => return None,
        };
        let output = match get_audio_output_opt(get_member(v, "output", 1)) {
            Some(x) => x,
            None => return None,
        };
        Some(AudioConfiguration { input, output })
    }

    /// A copy.
    pub fn copy(&self) -> (r: Self)
        ensures
            r@ == self@,
    {
        AudioConfiguration {
            input: copy_audio_input(&self.input),
            output: copy_audio_output(&self.output),
        }
    }
}

/// What an optional [`AudioConfiguration`] says.
pub open spec fn audio_configuration_opt(x: Option<AudioConfiguration>) -> Option<AudioConfigurationView> {
    match x {
        Some(y) => Some(y@),
        None => None,
    }
}

/// An optional [`AudioConfiguration`] as a document.
pub open spec fn audio_configuration_json(x: Option<AudioConfigurationView>) -> Option<Json> {
    match x {
        Some(y) => Some(y.json()),
        None => None,
    }
}

/// An optional [`AudioConfiguration`]: missing, null or the structure.
pub open spec fn read_audio_configuration_opt(m: Option<Json>) -> Option<Option<AudioConfigurationView>> {
    match m {
        None => Some(None),
        Some(Json::Null) => Some(None),
        Some(j) => match AudioConfigurationView::read(j) {
            Some(x) => Some(Some(x)),
            None => None,
        },
    }
}

fn set_audio_configuration(v: &mut Value, key: &str, x: &Option<AudioConfiguration>)
    requires
        json_of(*old(v)) is Object,
    ensures
        json_of(*final(v)) == json_of(*old(v)).with_some(key@, audio_configuration_json(audio_configuration_opt(*x))),
{
    if let Some(y) = x {
        value_set(v, key, y.to_value());
    }
}

fn get_audio_configuration_opt(v: Option<&Value>) -> (r: Option<Option<AudioConfiguration>>)
    ensures
        match r {
            Some(x) => read_audio_configuration_opt(ref_json(v)) == Some(audio_configuration_opt(x)),
            None => read_audio_configuration_opt(ref_json(v)) is None,
        },
{
    match v {
        Some(x) => {
            if value_is_null(x) {
                return Some(None);
            }
            match AudioConfiguration::from_value(x) {
                Some(y) => Some(Some(y)),
                None => None,
            }
        },
        None => Some(None),
    }
}

fn copy_audio_configuration(x: &Option<AudioConfiguration>) -> (r: Option<AudioConfiguration>)
    ensures
        audio_configuration_opt(r) == audio_configuration_opt(*x),
{
    match x {
        Some(y) => Some(y.copy()),
        None => None,
    }
}

/// Session configuration sent to the service via `session.update`.
///
/// Only values that are set appear in the document.
#[derive(Debug)]
pub struct SessionProperties {
    pub model: Option<String>,
    pub output_modalities: Option<Vec<String>>,
    pub instructions: Option<String>,
    pub audio: Option<AudioConfiguration>,
    pub tools: Option<Value>,
    pub tool_choice: Option<String>,
    pub max_output_tokens: Option<Value>,
    pub tracing: Option<Value>,
}

/// What a [`SessionProperties`] says.
pub struct SessionPropertiesView {
    pub model: Option<Seq<char>>,
    pub output_modalities: Option<Seq<Seq<char>>>,
    pub instructions: Option<Seq<char>>,
    pub audio: Option<AudioConfigurationView>,
    pub tools: Option<Json>,
    pub tool_choice: Option<Seq<char>>,
    pub max_output_tokens: Option<Json>,
    pub tracing: Option<Json>,
}

impl View for SessionProperties {
    type V = SessionPropertiesView;

    open spec fn view(&self) -> SessionPropertiesView {
        SessionPropertiesView {
            model: text_opt(self.model),
            output_modalities: texts_opt(self.output_modalities),
            instructions: text_opt(self.instructions),
            audio: audio_configuration_opt(self.audio),
            tools: json_opt(self.tools),
            tool_choice: text_opt(self.tool_choice),
            max_output_tokens: json_opt(self.max_output_tokens),
            tracing: json_opt(self.tracing),
        }
    }
}

impl SessionPropertiesView {
    /// Without any value.
    pub open spec fn none() -> SessionPropertiesView {
        SessionPropertiesView { model: None, output_modalities: None, instructions: None, audio: None, tools: None, tool_choice: None, max_output_tokens: None, tracing: None }
    }

    /// The document that is written.
    pub open spec fn json(self) -> Json {
        empty_object().with_some("model"@, text_json(self.model)).with_some("output_modalities"@, texts_json(self.output_modalities)).with_some("instructions"@, text_json(self.instructions)).with_some("audio"@, audio_configuration_json(self.audio)).with_some("tools"@, self.tools).with_some("tool_choice"@, text_json(self.tool_choice)).with_some("max_output_tokens"@, self.max_output_tokens).with_some("tracing"@, self.tracing)
    }

    /// What a document says; nothing where it is no such structure.
    pub open spec fn read(j: Json) -> Option<SessionPropertiesView> {
        if !holds_structure(j, 8, 8) {
            None
        } else {
            let model = read_text_opt(member(j, "model"@, 0));
            let output_modalities = read_texts_opt(member(j, "output_modalities"@, 1));
            let instructions = read_text_opt(member(j, "instructions"@, 2));
            let audio = read_audio_configuration_opt(member(j, "audio"@, 3));
            let tools = read_json_opt(member(j, "tools"@, 4));
            let tool_choice = read_text_opt(member(j, "tool_choice"@, 5));
            let max_output_tokens = read_json_opt(member(j, "max_output_tokens"@, 6));
            let tracing = read_json_opt(member(j, "tracing"@, 7));
            if model is Some && output_modalities is Some && instructions is Some && audio is Some && tool_choice is Some {
                Some(
                    SessionPropertiesView {
                        model: model->0,
                        output_modalities: output_modalities->0,
                        instructions: instructions->0,
                        audio: audio->0,
                        tools,
                        tool_choice: tool_choice->0,
                        max_output_tokens,
                        tracing,
                    },
                )
            } else {
                None
            }
        }
    }
}

impl Default for SessionProperties {
    fn default() -> (r: Self)
        ensures
            r@ == SessionPropertiesView::none(),
    {
        SessionProperties { model: None, output_modalities: None, instructions: None, audio: None, tools: None, tool_choice: None, max_output_tokens: None, tracing: None }
    }
}

impl SessionProperties {
    /// Writes it as a document.
    pub fn to_value(&self) -> (r: Value)
        ensures
            json_of(r) == self@.json(),
    {
        let mut v = value_object();
        set_text(&mut v, "model", &self.model);
        set_texts(&mut v, "output_modalities", &self.output_modalities);
        set_text(&mut v, "instructions", &self.instructions);
        set_audio_configuration(&mut v, "audio", &self.audio);
        set_value(&mut v, "tools", &self.tools);
        set_text(&mut v, "tool_choice", &self.tool_choice);
        set_value(&mut v, "max_output_tokens", &self.max_output_tokens);
        set_value(&mut v, "tracing", &self.tracing);
        v
    }

    /// Reads it from a document.
    pub fn from_value(v: &Value) -> (r: Option<Self>)
        ensures
            match r {
                Some(x) => SessionPropertiesView::read(json_of(*v)) == Some(x@),
                None => SessionPropertiesView::read(json_of(*v)) is None,
            },
    {
        if !is_structure(v, 8, 8) {
            return None;
        }
        let model = match get_text_opt(get_member(v, "model", 0)) {
            Some(x) => x,
            None => return None,
        };
        let output_modalities = match get_texts_opt(get_member(v, "output_modalities", 1)) {
            Some(x) => x,
            None => return None,
        };
        let instructions = match get_text_opt(get_member(v, "instructions", 2)) {
            Some(x) => x,
            None => return None,
        };
        let audio = match get_audio_configuration_opt(get_member(v, "audio", 3)) {
            Some(x) => x,
            None => return None,
        };
        let tools = get_json_opt(get_member(v, "tools", 4));
        let tool_choice = match get_text_opt(get_member(v, "tool_choice", 5)) {
            Some(x) => x,
            None => return None,
        };
        let max_output_tokens = get_json_opt(get_member(v, "max_output_tokens", 6));
        let tracing = get_json_opt(get_member(v, "tracing", 7));
        Some(SessionProperties { model, output_modalities, instructions, audio, tools, tool_choice, max_output_tokens, tracing })
    }

    /// A copy.
    pub fn copy(&self) -> (r: Self)
        ensures
            r@ == self@,
    {
        SessionProperties {
            model: clone_text_opt(&self.model),
            output_modalities: copy_texts_opt(&self.output_modalities),
            instructions: clone_text_opt(&self.instructions),
            audio: copy_audio_configuration(&self.audio),
            tools: copy_value(&self.tools),
            tool_choice: clone_text_opt(&self.tool_choice),
            max_output_tokens: copy_value(&self.max_output_tokens),
            tracing: copy_value(&self.tracing),
        }
    }
}

/// Properties of one response, for `response.create`.
#[derive(Debug)]
pub struct ResponseProperties {
    pub output_modalities: Option<Vec<String>>,
    pub instructions: Option<String>,
    pub tools: Option<Value>,
    pub tool_choice: Option<String>,
    pub temperature: Option<Number>,
    pub max_output_tokens: Option<Value>,
}

/// What a [`ResponseProperties`] says.
pub struct ResponsePropertiesView {
    pub output_modalities: Option<Seq<Seq<char>>>,
    pub instructions: Option<Seq<char>>,
    pub tools: Option<Json>,
    pub tool_choice: Option<Seq<char>>,
    pub temperature: Option<u64>,
    pub max_output_tokens: Option<Json>,
}

impl View for ResponseProperties {
    type V = ResponsePropertiesView;

    open spec fn view(&self) -> ResponsePropertiesView {
        ResponsePropertiesView {
            output_modalities: texts_opt(self.output_modalities),
            instructions: text_opt(self.instructions),
            tools: json_opt(self.tools),
            tool_choice: text_opt(self.tool_choice),
            temperature: float_opt(self.temperature),
            max_output_tokens: json_opt(self.max_output_tokens),
        }
    }
}

impl ResponsePropertiesView {
    /// Without any value.
    pub open spec fn none() -> ResponsePropertiesView {
        ResponsePropertiesView { output_modalities: None, instructions: None, tools: None, tool_choice: None, temperature: None, max_output_tokens: None }
    }

    /// The document that is written.
    pub open spec fn json(self) -> Json {
        empty_object().with_some("output_modalities"@, texts_json(self.output_modalities)).with_some("instructions"@, text_json(self.instructions)).with_some("tools"@, self.tools).with_some("tool_choice"@, text_json(self.tool_choice)).with_some("temperature"@, float_json(self.temperature)).with_some("max_output_tokens"@, self.max_output_tokens)
    }

    /// What a document says; nothing where it is no such structure.
    pub open spec fn read(j: Json) -> Option<ResponsePropertiesView> {
        if !holds_structure(j, 6, 6) {
            None
        } else {
            let output_modalities = read_texts_opt(member(j, "output_modalities"@, 0));
            let instructions = read_text_opt(member(j, "instructions"@, 1));
            let tools = read_json_opt(member(j, "tools"@, 2));
            let tool_choice = read_text_opt(member(j, "tool_choice"@, 3));
            let temperature = read_float_opt(member(j, "temperature"@, 4));
            let max_output_tokens = read_json_opt(member(j, "max_output_tokens"@, 5));
            if output_modalities is Some && instructions is Some && tool_choice is Some
                && temperature is Some {
                Some(
                    ResponsePropertiesView {
                        output_modalities: output_modalities->0,
                        instructions: instructions->0,
                        tools,
                        tool_choice: tool_choice->0,
                        temperature: temperature->0,
                        max_output_tokens,
                    },
                )
            } else {
                None
            }
        }
    }
}

impl Default for ResponseProperties {
    fn default() -> (r: Self)
        ensures
            r@ == ResponsePropertiesView::none(),
    {
        ResponseProperties { output_modalities: None, instructions: None, tools: None, tool_choice: None, temperature: None, max_output_tokens: None }
    }
}

impl ResponseProperties {
    /// Writes it as a document.
    pub fn to_value(&self) -> (r: Value)
        ensures
            json_of(r) == self@.json(),
    {
        let mut v = value_object();
        set_texts(&mut v, "output_modalities", &self.output_modalities);
        set_text(&mut v, "instructions", &self.instructions);
        set_value(&mut v, "tools", &self.tools);
        set_text(&mut v, "tool_choice", &self.tool_choice);
        set_float(&mut v, "temperature", &self.temperature);
        set_value(&mut v, "max_output_tokens", &self.max_output_tokens);
        v
    }

    /// Reads it from a document.
    pub fn from_value(v: &Value) -> (r: Option<Self>)
        ensures
            match r {
                Some(x) => ResponsePropertiesView::read(json_of(*v)) == Some(x@),
                None => ResponsePropertiesView::read(json_of(*v)) is None,
            },
    {
        if !is_structure(v, 6, 6) {
            return None;
        }
        let output_modalities = match get_texts_opt(get_member(v, "output_modalities", 0)) {
            Some(x) => x,
            None => return None,
        };
        let instructions = match get_text_opt(get_member(v, "instructions", 1)) {
            Some(x) => x,
            None => return None,
        };
        let tools = get_json_opt(get_member(v, "tools", 2));
        let tool_choice = match get_text_opt(get_member(v, "tool_choice", 3)) {
            Some(x) => x,
            None => return None,
        };
        let temperature = match get_float_opt(get_member(v, "temperature", 4)) {
            Some(x) => x,
            None => return None,
        };
        let max_output_tokens = get_json_opt(get_member(v, "max_output_tokens", 5));
        Some(
            ResponseProperties {
                output_modalities,
                instructions,
                tools,
                tool_choice,
                temperature,
                max_output_tokens,
            },
        )
    }

    /// A copy.
    pub fn copy(&self) -> (r: Self)
        ensures
            r@ == self@,
    {
        ResponseProperties {
            output_modalities: copy_texts_opt(&self.output_modalities),
            instructions: clone_text_opt(&self.instructions),
            tools: copy_value(&self.tools),
            tool_choice: clone_text_opt(&self.tool_choice),
            temperature: copy_number(&self.temperature),
            max_output_tokens: copy_value(&self.max_output_tokens),
        }
    }
}

} // verus!
