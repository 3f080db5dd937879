//! Frames: what flows through a pipeline.
//!
//! A frame type is generic in how it represents text (`T`), bytes (`B`) and
//! documents (`J`). Programs use the instance over `String`, `bytes::Bytes` and
//! `serde_json::Value`; its view is the instance over `Seq<char>`, `Seq<u8>` and
//! [`Json`], in which contracts are written.
use bytes::Bytes;
use serde_json::Value;
use vstd::prelude::*;

use crate::json::{json_of, json_opt, Json};
use crate::collections::ValueMap;
use crate::payload::bytes_of;

verus! {

/// The characters of an optional text.
pub open spec fn text_opt(s: Option<String>) -> Option<Seq<char>> {
    match s {
        Some(x) => Some(x@),
        None => None,
    }
}

/// Raw audio: 16-bit little-endian samples.
#[derive(Debug, Clone)]
pub struct AudioOf<B> {
    pub audio: B,
    pub sample_rate: u32,
    pub num_channels: u16,
}

pub type AudioRawFrame = AudioOf<Bytes>;

impl View for AudioOf<Bytes> {
    type V = AudioOf<Seq<u8>>;

    open spec fn view(&self) -> AudioOf<Seq<u8>> {
        AudioOf {
            audio: bytes_of(self.audio),
            sample_rate: self.sample_rate,
            num_channels: self.num_channels,
        }
    }
}

/// Synthesized audio, with the context that it was made in.
#[derive(Debug, Clone)]
pub struct TTSAudioOf<T, B> {
    pub audio: B,
    pub sample_rate: u32,
    pub num_channels: u16,
    pub context_id: Option<T>,
}

pub type TTSAudioRawFrame = TTSAudioOf<String, Bytes>;

impl View for TTSAudioOf<String, Bytes> {
    type V = TTSAudioOf<Seq<char>, Seq<u8>>;

    open spec fn view(&self) -> TTSAudioOf<Seq<char>, Seq<u8>> {
        TTSAudioOf {
            audio: bytes_of(self.audio),
            sample_rate: self.sample_rate,
            num_channels: self.num_channels,
            context_id: text_opt(self.context_id),
        }
    }
}

/// A raw image: rows of pixels in the given format.
#[derive(Debug)]
pub struct ImageOf<T, B> {
    pub image: B,
    pub size: (u32, u32),
    pub format: Option<T>,
}

pub type ImageRawFrame = ImageOf<String, Bytes>;

impl View for ImageOf<String, Bytes> {
    type V = ImageOf<Seq<char>, Seq<u8>>;

    open spec fn view(&self) -> ImageOf<Seq<char>, Seq<u8>> {
        ImageOf {
            image: bytes_of(self.image),
            size: self.size,
            format: text_opt(self.format),
        }
    }
}

impl Clone for ImageOf<String, Bytes> {
    fn clone(&self) -> (r: Self)
        ensures
            r@ == self@,
    {
        clone_image(self)
    }
}

/// The images in a list.
pub open spec fn images_of(s: Seq<ImageRawFrame>) -> Seq<ImageOf<Seq<char>, Seq<u8>>> {
    s.map_values(|i: ImageRawFrame| i@)
}

/// A piece of text.
#[derive(Debug, Clone)]
pub struct TextOf<T> {
    pub text: T,
    pub skip_tts: Option<bool>,
    pub includes_inter_frame_spaces: bool,
    pub append_to_context: bool,
}

pub type TextFrame = TextOf<String>;

impl View for TextOf<String> {
    type V = TextOf<Seq<char>>;

    open spec fn view(&self) -> TextOf<Seq<char>> {
        TextOf {
            text: self.text@,
            skip_tts: self.skip_tts,
            includes_inter_frame_spaces: self.includes_inter_frame_spaces,
            append_to_context: self.append_to_context,
        }
    }
}

/// A piece of text that was put together from smaller ones.
#[derive(Debug, Clone)]
pub struct AggregatedTextFrameOf<T> {
    pub text: T,
    pub aggregated_by: T,
    pub context_id: Option<T>,
    pub skip_tts: Option<bool>,
    pub includes_inter_frame_spaces: bool,
    pub append_to_context: bool,
}

pub type AggregatedTextFrame = AggregatedTextFrameOf<String>;

impl View for AggregatedTextFrameOf<String> {
    type V = AggregatedTextFrameOf<Seq<char>>;

    open spec fn view(&self) -> AggregatedTextFrameOf<Seq<char>> {
        AggregatedTextFrameOf {
            text: self.text@,
            aggregated_by: self.aggregated_by@,
            context_id: text_opt(self.context_id),
            skip_tts: self.skip_tts,
            includes_inter_frame_spaces: self.includes_inter_frame_spaces,
            append_to_context: self.append_to_context,
        }
    }
}

/// What a speech recognizer understood.
#[derive(Debug, Clone)]
pub struct TranscriptionOf<T, J> {
    pub text: T,
    pub user_id: T,
    pub timestamp: Option<T>,
    pub language: Option<T>,
    pub finalized: bool,
    pub result: Option<J>,
}

pub type TranscriptionFrame = TranscriptionOf<String, Value>;

impl View for TranscriptionOf<String, Value> {
    type V = TranscriptionOf<Seq<char>, Json>;

    open spec fn view(&self) -> TranscriptionOf<Seq<char>, Json> {
        TranscriptionOf {
            text: self.text@,
            user_id: self.user_id@,
            timestamp: text_opt(self.timestamp),
            language: text_opt(self.language),
            finalized: self.finalized,
            result: json_opt(self.result),
        }
    }
}

/// What a speech recognizer understood so far.
#[derive(Debug, Clone)]
pub struct InterimTranscriptionOf<T, J> {
    pub text: T,
    pub user_id: T,
    pub timestamp: Option<T>,
    pub language: Option<T>,
    pub result: Option<J>,
}

pub type InterimTranscriptionFrame = InterimTranscriptionOf<String, Value>;

impl View for InterimTranscriptionOf<String, Value> {
    type V = InterimTranscriptionOf<Seq<char>, Json>;

    open spec fn view(&self) -> InterimTranscriptionOf<Seq<char>, Json> {
        InterimTranscriptionOf {
            text: self.text@,
            user_id: self.user_id@,
            timestamp: text_opt(self.timestamp),
            language: text_opt(self.language),
            result: json_opt(self.result),
        }
    }
}

/// A function that the language model asks to be called.
#[derive(Debug, Clone)]
pub struct FunctionCallOf<T, J> {
    pub function_name: T,
    pub tool_call_id: T,
    pub arguments: J,
}

pub type FunctionCallFromLLM = FunctionCallOf<String, Value>;

impl View for FunctionCallOf<String, Value> {
    type V = FunctionCallOf<Seq<char>, Json>;

    open spec fn view(&self) -> FunctionCallOf<Seq<char>, Json> {
        FunctionCallOf {
            function_name: self.function_name@,
            tool_call_id: self.tool_call_id@,
            arguments: json_of(self.arguments),
        }
    }
}

/// The calls in a list.
pub open spec fn calls_of(s: Seq<FunctionCallFromLLM>) -> Seq<FunctionCallOf<Seq<char>, Json>> {
    s.map_values(|c: FunctionCallFromLLM| c@)
}

/// A function call that is being carried out.
#[derive(Debug, Clone)]
pub struct FunctionCallInProgressOf<T, J> {
    pub function_name: T,
    pub tool_call_id: T,
    pub arguments: J,
    pub cancel_on_interruption: bool,
}

pub type FunctionCallInProgressFrame = FunctionCallInProgressOf<String, Value>;

impl View for FunctionCallInProgressOf<String, Value> {
    type V = FunctionCallInProgressOf<Seq<char>, Json>;

    open spec fn view(&self) -> FunctionCallInProgressOf<Seq<char>, Json> {
        FunctionCallInProgressOf {
            function_name: self.function_name@,
            tool_call_id: self.tool_call_id@,
            arguments: json_of(self.arguments),
            cancel_on_interruption: self.cancel_on_interruption,
        }
    }
}

/// How the result of a function call is to be treated.
#[derive(Debug, Clone, Copy, PartialEq, Eq, Structural)]
pub struct FunctionCallResultProperties {
    pub run_llm: Option<bool>,
}

/// The result of a function call.
#[derive(Debug, Clone)]
pub struct FunctionCallResultOf<T, J> {
    pub function_name: T,
    pub tool_call_id: T,
    pub arguments: J,
    pub result: J,
    pub run_llm: Option<bool>,
    pub properties: Option<FunctionCallResultProperties>,
}

pub type FunctionCallResultFrame = FunctionCallResultOf<String, Value>;

impl View for FunctionCallResultOf<String, Value> {
    type V = FunctionCallResultOf<Seq<char>, Json>;

    open spec fn view(&self) -> FunctionCallResultOf<Seq<char>, Json> {
        FunctionCallResultOf {
            function_name: self.function_name@,
            tool_call_id: self.tool_call_id@,
            arguments: json_of(self.arguments),
            result: json_of(self.result),
            run_llm: self.run_llm,
            properties: self.properties,
        }
    }
}

/// Tokens that a language model used.
#[derive(Debug, Clone, Copy, PartialEq, Eq, Structural)]
pub struct LlmTokenUsage {
    pub prompt_tokens: u32,
    pub completion_tokens: u32,
    pub total_tokens: u32,
    pub cache_read_input_tokens: Option<u32>,
    pub cache_creation_input_tokens: Option<u32>,
    pub reasoning_tokens: Option<u32>,
}

/// A measurement.
#[derive(Debug, Clone)]
pub enum MetricsOf<T> {
    /// Tokens used by a language model.
    LlmUsage { processor: T, model: Option<T>, value: LlmTokenUsage },
    /// Time taken, in nanoseconds.
    Processing { processor: T, model: Option<T>, nanos: u64 },
    /// Any other measurement, which the program keeps under a key.
    Recorded { key: u64 },
}

pub type MetricsData = MetricsOf<String>;

impl View for MetricsOf<String> {
    type V = MetricsOf<Seq<char>>;

    open spec fn view(&self) -> MetricsOf<Seq<char>> {
        match *self {
            MetricsOf::LlmUsage { processor, model, value } => MetricsOf::LlmUsage {
                processor: processor@,
                model: text_opt(model),
                value,
            },
            MetricsOf::Processing { processor, model, nanos } => MetricsOf::Processing {
                processor: processor@,
                model: text_opt(model),
                nanos,
            },
            MetricsOf::Recorded { key } => MetricsOf::Recorded { key },
        }
    }
}

/// The measurements in a list.
pub open spec fn metrics_of(s: Seq<MetricsData>) -> Seq<MetricsOf<Seq<char>>> {
    s.map_values(|m: MetricsData| m@)
}

/// The start of a session.
#[derive(Debug, Clone, Copy, PartialEq, Eq, Structural)]
pub struct StartFrame {
    pub audio_in_sample_rate: u32,
    pub audio_out_sample_rate: u32,
    pub allow_interruptions: bool,
    pub enable_metrics: bool,
    pub enable_usage_metrics: bool,
    pub report_only_initial_ttfb: bool,
}

/// A direction of travel through a pipeline.
#[derive(Debug, Clone, Copy, PartialEq, Eq, Structural)]
pub enum Direction {
    Downstream,
    Upstream,
}

/// A frame. Kinds whose data no component reads have no payload here: the
/// envelope's id leads to it. Latencies and speaking times are in nanoseconds.
#[derive(Debug, Clone)]
pub enum Frame {
    Start(StartFrame),
    End,
    Cancel,
    Stop,
    Interruption,
    Wakeup,
    InputAudioRaw(AudioRawFrame),
    InputImageRaw(ImageRawFrame),
    OutputAudioRaw(AudioRawFrame),
    SpeechOutputAudioRaw(AudioRawFrame),
    TTSAudioRaw(TTSAudioRawFrame),
    OutputImageRaw(ImageRawFrame),
    AssistantImageRaw(ImageRawFrame),
    Sprite(Vec<ImageRawFrame>),
    Text(TextFrame),
    LLMText(TextFrame),
    TTSText(AggregatedTextFrame),
    Transcription(TranscriptionFrame),
    InterimTranscription(InterimTranscriptionFrame),
    LLMContext(Value),
    LLMSetTools(Value),
    LLMFullResponseStart { skip_tts: Option<bool> },
    LLMFullResponseEnd { skip_tts: Option<bool> },
    LLMUpdateSettings(ValueMap),
    TTSUpdateSettings(ValueMap),
    STTUpdateSettings(ValueMap),
    TTSStarted { context_id: Option<String> },
    TTSStopped { context_id: Option<String> },
    FunctionCallsStarted(Vec<FunctionCallFromLLM>),
    FunctionCallInProgress(FunctionCallInProgressFrame),
    FunctionCallResult(FunctionCallResultFrame),
    Metrics(Vec<MetricsData>),
    UserStartedSpeaking,
    UserStoppedSpeaking,
    VADUserStartedSpeaking { start_secs: u64 },
    VADUserStoppedSpeaking { stop_secs: u64 },
    BotStartedSpeaking,
    BotStoppedSpeaking,
    BotSpeaking,
    STTMute { mute: bool },
    STTMetadata { ttfs_p99_latency: u64 },
    SpeechControlParams { turn_params: Option<Value> },
    FilterUpdateSettings,
    FilterEnable,
    MixerUpdateSettings,
    MixerEnable,
    OutputTransportReady,
    OutputTransportMessage { message: Value },
    OutputTransportMessageUrgent { message: Value },
    OutputDTMF { button: u8 },
    OutputDTMFUrgent { button: u8 },
    /// A kind that no component looks into.
    Other { key: u64 },
}

/// What a [`Frame`] says.
pub enum FrameView {
    Start(StartFrame),
    End,
    Cancel,
    Stop,
    Interruption,
    Wakeup,
    InputAudioRaw(AudioOf<Seq<u8>>),
    InputImageRaw(ImageOf<Seq<char>, Seq<u8>>),
    OutputAudioRaw(AudioOf<Seq<u8>>),
    SpeechOutputAudioRaw(AudioOf<Seq<u8>>),
    TTSAudioRaw(TTSAudioOf<Seq<char>, Seq<u8>>),
    OutputImageRaw(ImageOf<Seq<char>, Seq<u8>>),
    AssistantImageRaw(ImageOf<Seq<char>, Seq<u8>>),
    Sprite(Seq<ImageOf<Seq<char>, Seq<u8>>>),
    Text(TextOf<Seq<char>>),
    LLMText(TextOf<Seq<char>>),
    TTSText(AggregatedTextFrameOf<Seq<char>>),
    Transcription(TranscriptionOf<Seq<char>, Json>),
    InterimTranscription(InterimTranscriptionOf<Seq<char>, Json>),
    LLMContext(Json),
    LLMSetTools(Json),
    LLMFullResponseStart { skip_tts: Option<bool> },
    LLMFullResponseEnd { skip_tts: Option<bool> },
    LLMUpdateSettings(Map<Seq<char>, Json>),
    TTSUpdateSettings(Map<Seq<char>, Json>),
    STTUpdateSettings(Map<Seq<char>, Json>),
    TTSStarted { context_id: Option<Seq<char>> },
    TTSStopped { context_id: Option<Seq<char>> },
    FunctionCallsStarted(Seq<FunctionCallOf<Seq<char>, Json>>),
    FunctionCallInProgress(FunctionCallInProgressOf<Seq<char>, Json>),
    FunctionCallResult(FunctionCallResultOf<Seq<char>, Json>),
    Metrics(Seq<MetricsOf<Seq<char>>>),
    UserStartedSpeaking,
    UserStoppedSpeaking,
    VADUserStartedSpeaking { start_secs: u64 },
    VADUserStoppedSpeaking { stop_secs: u64 },
    BotStartedSpeaking,
    BotStoppedSpeaking,
    BotSpeaking,
    STTMute { mute: bool },
    STTMetadata { ttfs_p99_latency: u64 },
    SpeechControlParams { turn_params: Option<Json> },
    FilterUpdateSettings,
    FilterEnable,
    MixerUpdateSettings,
    MixerEnable,
    OutputTransportReady,
    OutputTransportMessage { message: Json },
    OutputTransportMessageUrgent { message: Json },
    OutputDTMF { button: u8 },
    OutputDTMFUrgent { button: u8 },
    /// A kind that no component looks into.
    Other { key: u64 },
}

impl View for Frame {
    type V = FrameView;

    open spec fn view(&self) -> FrameView {
        match *self {
            Frame::Start(f) => FrameView::Start(f),
            Frame::End => FrameView::End,
            Frame::Cancel => FrameView::Cancel,
            Frame::Stop => FrameView::Stop,
            Frame::Interruption => FrameView::Interruption,
            Frame::Wakeup => FrameView::Wakeup,
            Frame::InputAudioRaw(f) => FrameView::InputAudioRaw(f@),
            Frame::InputImageRaw(f) => FrameView::InputImageRaw(f@),
            Frame::OutputAudioRaw(f) => FrameView::OutputAudioRaw(f@),
            Frame::SpeechOutputAudioRaw(f) => FrameView::SpeechOutputAudioRaw(f@),
            Frame::TTSAudioRaw(f) => FrameView::TTSAudioRaw(f@),
            Frame::OutputImageRaw(f) => FrameView::OutputImageRaw(f@),
            Frame::AssistantImageRaw(f) => FrameView::AssistantImageRaw(f@),
            Frame::Sprite(f) => FrameView::Sprite(images_of(f@)),
            Frame::Text(f) => FrameView::Text(f@),
            Frame::LLMText(f) => FrameView::LLMText(f@),
            Frame::TTSText(f) => FrameView::TTSText(f@),
            Frame::Transcription(f) => FrameView::Transcription(f@),
            Frame::InterimTranscription(f) => FrameView::InterimTranscription(f@),
            Frame::LLMContext(f) => FrameView::LLMContext(json_of(f)),
            Frame::LLMSetTools(f) => FrameView::LLMSetTools(json_of(f)),
            Frame::LLMFullResponseStart { skip_tts } => FrameView::LLMFullResponseStart { skip_tts },
            Frame::LLMFullResponseEnd { skip_tts } => FrameView::LLMFullResponseEnd { skip_tts },
            Frame::LLMUpdateSettings(f) => FrameView::LLMUpdateSettings(f@),
            Frame::TTSUpdateSettings(f) => FrameView::TTSUpdateSettings(f@),
            Frame::STTUpdateSettings(f) => FrameView::STTUpdateSettings(f@),
            Frame::TTSStarted { context_id } => FrameView::TTSStarted { context_id: text_opt(context_id) },
            Frame::TTSStopped { context_id } => FrameView::TTSStopped { context_id: text_opt(context_id) },
            Frame::FunctionCallsStarted(f) => FrameView::FunctionCallsStarted(calls_of(f@)),
            Frame::FunctionCallInProgress(f) => FrameView::FunctionCallInProgress(f@),
            Frame::FunctionCallResult(f) => FrameView::FunctionCallResult(f@),
            Frame::Metrics(f) => FrameView::Metrics(metrics_of(f@)),
            Frame::UserStartedSpeaking => FrameView::UserStartedSpeaking,
            Frame::UserStoppedSpeaking => FrameView::UserStoppedSpeaking,
            Frame::VADUserStartedSpeaking { start_secs } => FrameView::VADUserStartedSpeaking { start_secs },
            Frame::VADUserStoppedSpeaking { stop_secs } => FrameView::VADUserStoppedSpeaking { stop_secs },
            Frame::BotStartedSpeaking => FrameView::BotStartedSpeaking,
            Frame::BotStoppedSpeaking => FrameView::BotStoppedSpeaking,
            Frame::BotSpeaking => FrameView::BotSpeaking,
            Frame::STTMute { mute } => FrameView::STTMute { mute },
            Frame::STTMetadata { ttfs_p99_latency } => FrameView::STTMetadata { ttfs_p99_latency },
            Frame::SpeechControlParams { turn_params } => FrameView::SpeechControlParams { turn_params: json_opt(turn_params) },
            Frame::FilterUpdateSettings => FrameView::FilterUpdateSettings,
            Frame::FilterEnable => FrameView::FilterEnable,
            Frame::MixerUpdateSettings => FrameView::MixerUpdateSettings,
            Frame::MixerEnable => FrameView::MixerEnable,
            Frame::OutputTransportReady => FrameView::OutputTransportReady,
            Frame::OutputTransportMessage { message } => FrameView::OutputTransportMessage { message: json_of(message) },
            Frame::OutputTransportMessageUrgent { message } => FrameView::OutputTransportMessageUrgent { message: json_of(message) },
            Frame::OutputDTMF { button } => FrameView::OutputDTMF { button },
            Frame::OutputDTMFUrgent { button } => FrameView::OutputDTMFUrgent { button },
            Frame::Other { key } => FrameView::Other { key },
        }
    }
}

/// The frames in a list.
pub open spec fn frames_of(s: Seq<Frame>) -> Seq<FrameView> {
    s.map_values(|f: Frame| f@)
}

/// A frame with its header: an id that no other envelope has, the presentation
/// time in nanoseconds, and the destination of the transport.
#[derive(Debug, Clone)]
pub struct FrameEnvelope {
    pub id: u64,
    pub pts: Option<u64>,
    pub transport_destination: Option<String>,
    pub frame: Frame,
}

/// What a [`FrameEnvelope`] says.
pub struct EnvelopeView {
    pub id: u64,
    pub pts: Option<u64>,
    pub transport_destination: Option<Seq<char>>,
    pub frame: FrameView,
}

impl View for FrameEnvelope {
    type V = EnvelopeView;

    open spec fn view(&self) -> EnvelopeView {
        EnvelopeView {
            id: self.id,
            pts: self.pts,
            transport_destination: text_opt(self.transport_destination),
            frame: self.frame@,
        }
    }
}

/// A copy of an optional text.
pub fn clone_text_opt(s: &Option<String>) -> (r: Option<String>)
    ensures
        text_opt(r) == text_opt(*s),
{
    match s {
        Some(x) => Some(x.clone()),
        None => None,
    }
}

/// A copy of an audio frame.
pub fn clone_audio(f: &AudioRawFrame) -> (r: AudioRawFrame)
    ensures
        r@ == f@,
{
    AudioOf {
        audio: f.audio.clone(),
        sample_rate: f.sample_rate,
        num_channels: f.num_channels,
    }
}

/// A copy of an image.
pub fn clone_image(f: &ImageRawFrame) -> (r: ImageRawFrame)
    ensures
        r@ == f@,
{
    ImageOf { image: f.image.clone(), size: f.size, format: clone_text_opt(&f.format) }
}

/// A copy of a list of images.
pub fn clone_images(list: &Vec<ImageRawFrame>) -> (r: Vec<ImageRawFrame>)
    ensures
        images_of(r@) == images_of(list@),
{
    let mut out: Vec<ImageRawFrame> = Vec::new();
    let mut i: usize = 0;
    while i < list.len()
        invariant
            i <= list@.len(),
            images_of(out@) == images_of(list@.take(i as int)),
        decreases list@.len() - i,
    {
        out.push(clone_image(&list[i]));
        proof {
            assert(images_of(out@) =~= images_of(list@.take(i as int)).push(list@[i as int]@));
            assert(images_of(list@.take(i + 1)) =~= images_of(list@.take(i as int)).push(
                list@[i as int]@,
            ));
        }
        i = i + 1;
    }
    proof {
        assert(list@.take(list@.len() as int) =~= list@);
    }
    out
}

} // verus!
