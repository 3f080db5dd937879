//! Local transports: audio from and to buffers and files.
use bytes::Bytes;
use vstd::prelude::*;
use vstd::string::*;

use crate::frames::{AudioOf, AudioRawFrame, Direction, Frame, FrameEnvelope, FrameView};
use crate::payload::{bytes_as_slice, bytes_from};
use crate::transport::input::{BaseInputTransport, InputAction, InputModel};
use crate::transport::output::{
    output_actions_of, BaseOutputTransport, FrameFacts, OutputAction, OutputActionView, OutputModel,
};
use crate::transport::params::TransportParams;
use crate::transport::pcm::{decode_samples, pcm_of, pieces, samples_of};
use crate::transport::wav::{is_pcm16, read_wav_to_pcm, wav_header_of, wav_samples_of};

verus! {

/// Audio file format for reading/writing.
#[derive(Debug, Clone, Copy, PartialEq, Eq, Structural)]
pub enum AudioFormat {
    /// Raw PCM: signed 16-bit little-endian interleaved samples.
    RawPcm,
    /// WAV container (16-bit integer samples only).
    Wav,
}

impl Default for AudioFormat {
    fn default() -> (r: Self)
        ensures
            r == AudioFormat::RawPcm,
    {
        AudioFormat::RawPcm
    }
}

/// Source of audio data for the local input transport.
#[derive(Debug)]
pub enum AudioInputSource {
    /// Audio data in memory.
    Buffer(Bytes),
    /// Audio file on disk (interpreted according to `AudioFormat`), by its path.
    File(String),
    /// Frames that the program injects (always raw PCM).
    Channel,
}

/// Controls the pacing of audio chunk delivery.
#[derive(Debug, Clone, Copy, PartialEq, Eq, Structural)]
pub enum AudioPacing {
    /// Deliver chunks as fast as possible.
    AsFastAsPossible,
    /// Deliver chunks at real-time rate (~20ms per chunk).
    RealTime,
}

impl Default for AudioPacing {
    fn default() -> (r: Self)
        ensures
            r == AudioPacing::AsFastAsPossible,
    {
        AudioPacing::AsFastAsPossible
    }
}

/// The size of 20ms of audio in bytes.
pub open spec fn chunk_of_20ms(sample_rate: u32, num_channels: u16) -> int {
    (sample_rate as int / 50) * num_channels as int * 2
}

/// Compute 20ms chunk size in bytes for 16-bit samples.
pub fn compute_chunk_bytes(sample_rate: u32, num_channels: u16) -> (r: u64)
    ensures
        r == chunk_of_20ms(sample_rate, num_channels),
{
    let (frames, channels): (u64, u64) = (sample_rate as u64 / 50, num_channels as u64);
    assert(0 <= frames * channels <= 0xFFFF_FFFF * 0xFFFF) by (nonlinear_arith)
        requires
            0 <= frames <= 0xFFFF_FFFF,
            0 <= channels <= 0xFFFF,
    ;
    frames * channels * 2
}

/// The audio frames in a list.
pub open spec fn audios_of(s: Seq<AudioRawFrame>) -> Seq<AudioOf<Seq<u8>>> {
    s.map_values(|f: AudioRawFrame| f@)
}

/// Frames of audio, one for each piece of data.
pub open spec fn framed(parts: Seq<Seq<u8>>, sample_rate: u32, num_channels: u16) -> Seq<
    AudioOf<Seq<u8>>,
> {
    parts.map_values(|data: Seq<u8>| AudioOf { audio: data, sample_rate, num_channels })
}

/// Cuts raw audio into frames. Without a chunk size there are none.
pub fn feed_chunks(data: &[u8], chunk_bytes: u64, sample_rate: u32, num_channels: u16) -> (r: Vec<
    AudioRawFrame,
>)
    ensures
        audios_of(r@) == framed(
            pieces(data@, chunk_bytes as nat),
            sample_rate,
            num_channels,
        ),
{
    let ghost size = chunk_bytes as nat;
    let ghost all = framed(pieces(data@, size), sample_rate, num_channels);
    let mut out: Vec<AudioRawFrame> = Vec::new();
    proof {
        assert(audios_of(out@) =~= Seq::empty());
    }
    if chunk_bytes == 0 {
        proof {
            assert(all =~= Seq::empty());
        }
        return out;
    }
    let n: usize = data.len();
    let mut start: usize = 0;
    proof {
        assert(data@.skip(0) =~= data@);
        assert(audios_of(out@) + all =~= all);
    }
    while start < n
        invariant
            size == chunk_bytes,
            chunk_bytes > 0,
            start <= n == data@.len(),
            audios_of(out@) + framed(
                pieces(data@.skip(start as int), size),
                sample_rate,
                num_channels,
            ) == all,
        decreases n - start,
    {
        let ghost left = data@.skip(start as int);
        let ghost done = audios_of(out@);
        let end: usize = if (n - start) as u64 <= chunk_bytes {
            n
        } else {
            start + chunk_bytes as usize
        };
        let mut part: Vec<u8> = Vec::new();
        let mut i: usize = start;
        while i < end
            invariant
                start <= i <= end <= n == data@.len(),
                part@ == data@.subrange(start as int, i as int),
            decreases end - i,
        {
            part.push(data[i]);
            i = i + 1;
            proof {
                assert(data@.subrange(start as int, i as int) =~= data@.subrange(
                    start as int,
                    i - 1,
                ).push(data@[i - 1]));
            }
        }
        let ghost cut = part@;
        out.push(AudioOf { audio: bytes_from(part), sample_rate, num_channels });
        start = end;
        proof {
            let rest = data@.skip(start as int);
            assert(left.skip(size as int) =~= rest || (left.len() <= size && rest.len() == 0));
            assert(left.len() <= size ==> left =~= cut);
            assert(left.len() > size ==> left.take(size as int) =~= cut);
            let one = AudioOf { audio: cut, sample_rate, num_channels };
            assert(pieces(left, size) =~= seq![cut] + pieces(rest, size));
            assert(framed(pieces(left, size), sample_rate, num_channels) =~= seq![one] + framed(
                pieces(rest, size),
                sample_rate,
                num_channels,
            ));
            assert(audios_of(out@) =~= done + seq![one]);
            assert(done + (seq![one] + framed(pieces(rest, size), sample_rate, num_channels))
                =~= (done + seq![one]) + framed(pieces(rest, size), sample_rate, num_channels));
        }
    }
    proof {
        let rest = data@.skip(start as int);
        assert(framed(pieces(rest, size), sample_rate, num_channels) =~= Seq::empty());
        assert(audios_of(out@) =~= all);
    }
    out
}

/// The frames that audio data of a format is cut into: raw data at the given
/// rate, WAV data at the rate that it states. Data that is no such WAV gives
/// none.
pub open spec fn frames_of_data(
    data: Seq<u8>,
    format: AudioFormat,
    sample_rate: u32,
    num_channels: u16,
) -> Seq<AudioOf<Seq<u8>>> {
    match format {
        AudioFormat::RawPcm => framed(
            pieces(data, chunk_of_20ms(sample_rate, num_channels) as nat),
            sample_rate,
            num_channels,
        ),
        AudioFormat::Wav => {
            let header = wav_header_of(data);
            let samples = wav_samples_of(data);
            if header is Some && is_pcm16(header->0) && samples is Some {
                framed(
                    pieces(
                        pcm_of(samples->0),
                        chunk_of_20ms(header->0.sample_rate, header->0.channels) as nat,
                    ),
                    header->0.sample_rate,
                    header->0.channels,
                )
            } else {
                Seq::empty()
            }
        },
    }
}

/// Cuts audio data of a format into frames.
pub fn source_frames(data: &[u8], format: AudioFormat, sample_rate: u32, num_channels: u16) -> (r:
    Vec<AudioRawFrame>)
    ensures
        audios_of(r@) == frames_of_data(data@, format, sample_rate, num_channels),
{
    match format {
        AudioFormat::RawPcm => {
            feed_chunks(
                data,
                compute_chunk_bytes(sample_rate, num_channels),
                sample_rate,
                num_channels,
            )
        },
        AudioFormat::Wav => {
            match read_wav_to_pcm(data) {
                Some(audio) => feed_chunks(
                    audio.pcm.as_slice(),
                    compute_chunk_bytes(audio.sample_rate, audio.num_channels),
                    audio.sample_rate,
                    audio.num_channels,
                ),
                None => {
                    let out: Vec<AudioRawFrame> = Vec::new();
                    proof {
                        assert(audios_of(out@) =~= Seq::empty());
                    }
                    out
                },
            }
        },
    }
}

/// How a source is to be fed into the audio queue.
#[derive(Debug, Clone, Copy, PartialEq, Eq, Structural)]
pub struct FeedPlan {
    pub format: AudioFormat,
    pub sample_rate: u32,
    pub num_channels: u16,
    /// Whether to wait 20ms behind each frame.
    pub realtime: bool,
}

/// What a local input transport asks the program to do.
#[derive(Debug)]
pub enum LocalInputAction {
    /// Carry out an action of the transport that this one is built on.
    Inner(InputAction),
    /// Feed a source into the audio queue, in the background.
    Feed(AudioInputSource, FeedPlan),
    /// Stop feeding.
    CancelFeed,
}

/// Actions of the transport that a local one is built on.
pub open spec fn of_inner(actions: Seq<InputAction>) -> Seq<LocalInputAction> {
    actions.map_values(|a: InputAction| LocalInputAction::Inner(a))
}

/// Adds the actions of the transport that a local one is built on.
fn emit_inner(list: &mut Vec<LocalInputAction>, actions: Vec<InputAction>)
    ensures
        final(list)@ == old(list)@ + of_inner(actions@),
{
    let ghost before = list@;
    let mut i: usize = 0;
    proof {
        assert(before + of_inner(actions@.take(0)) =~= before);
    }
    while i < actions.len()
        invariant
            i <= actions@.len(),
            list@ == before + of_inner(actions@.take(i as int)),
        decreases actions@.len() - i,
    {
        list.push(LocalInputAction::Inner(actions[i]));
        proof {
            assert(before + of_inner(actions@.take(i + 1)) =~= (before + of_inner(
                actions@.take(i as int),
            )).push(LocalInputAction::Inner(actions@[i as int])));
        }
        i = i + 1;
    }
    proof {
        assert(actions@.take(actions@.len() as int) =~= actions@);
    }
}

/// The state of a [`LocalAudioInputTransport`].
pub struct LocalInputModel {
    pub inner: InputModel,
    pub source: Option<AudioInputSource>,
    pub pacing: AudioPacing,
    pub format: AudioFormat,
    pub num_channels: u16,
    /// Whether a source is being fed.
    pub feeding: bool,
}

impl LocalInputModel {
    /// The source is fed into the audio queue, where there is one left and the
    /// queue is open. It can be fed only once.
    pub open spec fn fed(self) -> (LocalInputModel, Seq<LocalInputAction>) {
        if self.source is Some && self.inner.audio_open {
            (
                LocalInputModel { source: None, feeding: true, ..self },
                seq![
                    LocalInputAction::Feed(
                        self.source->0,
                        FeedPlan {
                            format: self.format,
                            sample_rate: self.inner.sample_rate,
                            num_channels: self.num_channels,
                            realtime: self.pacing == AudioPacing::RealTime,
                        },
                    ),
                ],
            )
        } else {
            (LocalInputModel { source: None, ..self }, Seq::empty())
        }
    }

    /// The transport after a frame, and what the frame calls for.
    pub open spec fn processed(self, frame: FrameView, direction: Direction) -> (
        LocalInputModel,
        Seq<LocalInputAction>,
    ) {
        let (inner, first) = self.inner.processed(frame, direction);
        match frame {
            FrameView::Start(_) => {
                let (inner, second) = inner.spawned();
                let (m, third) = LocalInputModel { inner, ..self }.fed();
                (m, of_inner(first) + of_inner(second) + third)
            },
            FrameView::End | FrameView::Cancel => (
                LocalInputModel { inner, feeding: false, ..self },
                of_inner(first) + (if self.feeding {
                    seq![LocalInputAction::CancelFeed]
                } else {
                    Seq::empty()
                }),
            ),
            _ => (LocalInputModel { inner, ..self }, of_inner(first)),
        }
    }
}

/// Local audio input transport that reads from a buffer, file, or channel and
/// feeds audio into the pipeline.
#[derive(Debug)]
pub struct LocalAudioInputTransport {
    inner: BaseInputTransport,
    source: Option<AudioInputSource>,
    pacing: AudioPacing,
    format: AudioFormat,
    num_channels: u16,
    feeding: bool,
}

impl View for LocalAudioInputTransport {
    type V = LocalInputModel;

    closed spec fn view(&self) -> LocalInputModel {
        LocalInputModel {
            inner: self.inner@,
            source: self.source,
            pacing: self.pacing,
            format: self.format,
            num_channels: self.num_channels,
            feeding: self.feeding,
        }
    }
}

impl LocalAudioInputTransport {
    pub fn new(params: TransportParams, source: AudioInputSource) -> (r: Self)
        ensures
            r@ == (LocalInputModel {
                inner: InputModel::fresh("LocalAudioInput"@, params),
                source: Some(source),
                pacing: AudioPacing::AsFastAsPossible,
                format: AudioFormat::RawPcm,
                num_channels: params.audio_in_channels,
                feeding: false,
            }),
    {
        let num_channels: u16 = params.audio_in_channels;
        LocalAudioInputTransport {
            inner: BaseInputTransport::with_name("LocalAudioInput".to_owned(), params),
            source: Some(source),
            pacing: AudioPacing::default(),
            format: AudioFormat::default(),
            num_channels,
            feeding: false,
        }
    }

    pub fn with_pacing(self, pacing: AudioPacing) -> (r: Self)
        ensures
            r@ == (LocalInputModel { pacing, ..self@ }),
    {
        let mut s = self;
        s.pacing = pacing;
        s
    }

    pub fn with_format(self, format: AudioFormat) -> (r: Self)
        ensures
            r@ == (LocalInputModel { format, ..self@ }),
    {
        let mut s = self;
        s.format = format;
        s
    }

    /// The transport that this one is built on.
    pub fn inner(&self) -> (r: &BaseInputTransport)
        ensures
            r@ == self@.inner,
    {
        &self.inner
    }

    /// Asks for the source to be fed.
    fn spawn_source_task(&mut self, actions: &mut Vec<LocalInputAction>)
        ensures
            final(self)@ == old(self)@.fed().0,
            final(actions)@ == old(actions)@ + old(self)@.fed().1,
    {
        let mut taken: Option<AudioInputSource> = None;
        std::mem::swap(&mut self.source, &mut taken);
        if let Some(source) = taken {
            if self.inner.audio_in_sender() {
                let plan = FeedPlan {
                    format: self.format,
                    sample_rate: self.inner.sample_rate(),
                    num_channels: self.num_channels,
                    realtime: self.pacing == AudioPacing::RealTime,
                };
                self.feeding = true;
                actions.push(LocalInputAction::Feed(source, plan));
            }
        }
        proof {
            assert(actions@ =~= old(actions)@ + old(self)@.fed().1);
        }
    }

    /// Processes a frame.
    pub fn process_frame(&mut self, envelope: &FrameEnvelope, direction: Direction) -> (r: Vec<
        LocalInputAction,
    >)
        ensures
            (final(self)@, r@) == old(self)@.processed(envelope@.frame, direction),
    {
        let mut actions: Vec<LocalInputAction> = Vec::new();
        let first = self.inner.process_frame(envelope, direction);
        emit_inner(&mut actions, first);
        match &envelope.frame {
            Frame::Start(_) => {
                let second = self.inner.set_transport_ready();
                emit_inner(&mut actions, second);
                self.spawn_source_task(&mut actions);
            },
            Frame::End | Frame::Cancel => {
                if self.feeding {
                    actions.push(LocalInputAction::CancelFeed);
                }
                self.feeding = false;
            },
            _ => {},
        }
        proof {
            assert(actions@ =~= old(self)@.processed(envelope@.frame, direction).1);
        }
        actions
    }
}

/// Destination for audio data from the local output transport.
#[derive(Debug)]
pub enum AudioOutputSink {
    /// Collect raw PCM bytes in memory.
    Buffer,
    /// Write to a file on disk, by its path (format determined by
    /// `AudioFormat`).
    File(String),
    /// Discard all output audio.
    Discard,
}

/// Where the audio of a local output transport goes.
#[derive(Debug)]
pub enum LocalSink {
    Buffer(Vec<u8>),
    /// A file that raw data is appended to.
    File,
    /// A WAV file.
    WavFile(WavSinkState),
    Discard,
}

/// The state of a WAV file that is made when the first audio comes.
#[derive(Debug, Clone, Copy, PartialEq, Eq, Structural)]
pub enum WavSinkState {
    /// Waiting for the first audio frame to determine sample rate and channels.
    Pending,
    /// The file is open.
    Active,
    /// The file was closed, or could not be made.
    Finalized,
}

/// The first thing to be done to write a frame.
#[derive(Debug)]
pub enum SinkStep {
    /// Nothing: the frame is taken.
    Taken,
    /// Append the frame's data to the file.
    AppendToFile,
    /// Make the WAV file for 16-bit integer samples, then report to `created`.
    CreateWav { sample_rate: u32, channels: u16 },
    /// Write samples to the WAV file.
    WriteSamples(Vec<i16>),
}

impl LocalSink {
    pub fn new(sink: &AudioOutputSink, format: AudioFormat) -> (r: Self)
        ensures
            match (*sink, format) {
                (AudioOutputSink::Buffer, _) => r matches LocalSink::Buffer(b) && b@.len() == 0,
                (AudioOutputSink::File(_), AudioFormat::RawPcm) => r is File,
                (AudioOutputSink::File(_), AudioFormat::Wav) => r == LocalSink::WavFile(
                    WavSinkState::Pending,
                ),
                (AudioOutputSink::Discard, _) => r is Discard,
            },
    {
        match (sink, format) {
            (AudioOutputSink::Buffer, _) => LocalSink::Buffer(Vec::new()),
            (AudioOutputSink::File(_), AudioFormat::RawPcm) => LocalSink::File,
            (AudioOutputSink::File(_), AudioFormat::Wav) => {
                LocalSink::WavFile(WavSinkState::Pending)
            },
            (AudioOutputSink::Discard, _) => LocalSink::Discard,
        }
    }

    /// A frame is to be written: the first thing to be done. A frame that is
    /// taken, and one whose step succeeds, counts as written.
    pub fn write_audio_frame(&mut self, frame: &AudioRawFrame) -> (r: SinkStep)
        ensures
            match *old(self) {
                LocalSink::Buffer(b) => {
                    &&& r is Taken
                    &&& *final(self) matches LocalSink::Buffer(c) && c@ == b@ + frame@.audio
                },
                LocalSink::File => r is AppendToFile && *final(self) is File,
                LocalSink::WavFile(WavSinkState::Pending) => {
                    &&& r matches SinkStep::CreateWav { sample_rate, channels } && sample_rate
                        == frame@.sample_rate && channels == frame@.num_channels
                    &&& *final(self) == LocalSink::WavFile(WavSinkState::Finalized)
                },
                LocalSink::WavFile(WavSinkState::Active) => {
                    &&& r matches SinkStep::WriteSamples(s) && s@ == samples_of(frame@.audio)
                    &&& *final(self) == *old(self)
                },
                LocalSink::WavFile(WavSinkState::Finalized) => r is Taken && *final(self) == *old(
                    self,
                ),
                LocalSink::Discard => r is Taken && *final(self) is Discard,
            },
    {
        let data: &[u8] = bytes_as_slice(&frame.audio);
        match self {
            LocalSink::Buffer(b) => {
                b.extend_from_slice(data);
                SinkStep::Taken
            },
            LocalSink::File => SinkStep::AppendToFile,
            LocalSink::WavFile(state) => {
                match *state {
                    WavSinkState::Pending => {
                        *state = WavSinkState::Finalized;
                        SinkStep::CreateWav {
                            sample_rate: frame.sample_rate,
                            channels: frame.num_channels,
                        }
                    },
                    WavSinkState::Active => SinkStep::WriteSamples(decode_samples(data)),
                    WavSinkState::Finalized => SinkStep::Taken,
                }
            },
            LocalSink::Discard => SinkStep::Taken,
        }
    }

    /// The WAV file was made, or could not be made: returns the samples to be
    /// written, or nothing where the frame is not written.
    pub fn created(&mut self, made: bool, frame: &AudioRawFrame) -> (r: Option<Vec<i16>>)
        ensures
            made && *old(self) is WavFile ==> {
                &&& r is Some && r->0@ == samples_of(frame@.audio)
                &&& *final(self) == LocalSink::WavFile(WavSinkState::Active)
            },
            !made || !(*old(self) is WavFile) ==> r is None && *final(self) == *old(self),
    {
        if !made {
            return None;
        }
        match self {
            LocalSink::WavFile(state) => {
                *state = WavSinkState::Active;
                Some(decode_samples(bytes_as_slice(&frame.audio)))
            },
            _ => None,
        }
    }

    /// The transport ends: returns whether a WAV file is to be closed.
    pub fn finalize(&mut self) -> (r: bool)
        ensures
            r == (*old(self) == LocalSink::WavFile(WavSinkState::Active)),
            *final(self) == match *old(self) {
                LocalSink::WavFile(_) => LocalSink::WavFile(WavSinkState::Finalized),
                other => other,
            },
    {
        match self {
            LocalSink::WavFile(state) => {
                let active = *state == WavSinkState::Active;
                *state = WavSinkState::Finalized;
                active
            },
            _ => false,
        }
    }
}

/// Local audio output transport that writes audio to a buffer, file, or
/// discards it.
#[derive(Debug)]
pub struct LocalAudioOutputTransport {
    inner: BaseOutputTransport,
    sink: LocalSink,
}

impl LocalAudioOutputTransport {
    /// The state of the transport that this one is built on.
    pub closed spec fn inner_model(&self) -> OutputModel {
        self.inner@
    }

    /// Where the audio goes.
    pub closed spec fn sink_model(&self) -> LocalSink {
        self.sink
    }

    /// Create a new local audio output transport with raw PCM format.
    pub fn new(params: TransportParams, sink: &AudioOutputSink) -> (r: Self)
        ensures
            r.inner_model() == OutputModel::fresh("LocalAudioOutput"@, params),
            match *sink {
                AudioOutputSink::Buffer => r.sink_model() matches LocalSink::Buffer(b) && b@.len()
                    == 0,
                AudioOutputSink::File(_) => r.sink_model() is File,
                AudioOutputSink::Discard => r.sink_model() is Discard,
            },
    {
        Self::with_format(params, sink, AudioFormat::RawPcm)
    }

    /// Create a new local audio output transport with the specified format.
    pub fn with_format(params: TransportParams, sink: &AudioOutputSink, format: AudioFormat) -> (r:
        Self)
        ensures
            r.inner_model() == OutputModel::fresh("LocalAudioOutput"@, params),
            match (*sink, format) {
                (AudioOutputSink::Buffer, _) => r.sink_model() matches LocalSink::Buffer(b)
                    && b@.len() == 0,
                (AudioOutputSink::File(_), AudioFormat::RawPcm) => r.sink_model() is File,
                (AudioOutputSink::File(_), AudioFormat::Wav) => r.sink_model()
                    == LocalSink::WavFile(WavSinkState::Pending),
                (AudioOutputSink::Discard, _) => r.sink_model() is Discard,
            },
    {
        LocalAudioOutputTransport {
            inner: BaseOutputTransport::with_name("LocalAudioOutput".to_owned(), params),
            sink: LocalSink::new(sink, format),
        }
    }

    /// The transport that this one is built on.
    pub fn inner(&self) -> (r: &BaseOutputTransport)
        ensures
            r@ == self.inner_model(),
    {
        &self.inner
    }

    /// Where the audio goes, to be written to.
    pub fn sink_mut(&mut self) -> (r: &mut LocalSink)
        ensures
            *r == old(self).sink_model(),
            final(self).sink_model() == *final(r),
            final(self).inner_model() == old(self).inner_model(),
    {
        &mut self.sink
    }

    /// Get the collected audio if this transport writes to a buffer.
    pub fn output_buffer(&self) -> (r: Option<&Vec<u8>>)
        ensures
            match self.sink_model() {
                LocalSink::Buffer(b) => r is Some && r->0@ == b@,
                _ => r is None,
            },
    {
        match &self.sink {
            LocalSink::Buffer(b) => Some(b),
            _ => None,
        }
    }

    /// Processes a frame. Returns the actions of the transport that this one is
    /// built on, and whether the sink is to be finalized behind them.
    pub fn process_frame(
        &mut self,
        envelope: &FrameEnvelope,
        direction: Direction,
        facts: FrameFacts,
    ) -> (r: (Vec<OutputAction>, bool))
        requires
            old(self).inner_model().can_start(envelope@.frame),
            old(self).inner_model().can_take(envelope@, facts@),
        ensures
            ({
                let (m, first) = old(self).inner_model().processed(
                    envelope@,
                    direction,
                    facts@,
                );
                let (m, second) = if envelope@.frame is Start {
                    m.made_ready()
                } else {
                    (m, Seq::empty())
                };
                &&& final(self).inner_model() == m
                &&& output_actions_of(r.0@) == first + second
            }),
            r.1 == (envelope@.frame is End || envelope@.frame is Cancel),
            final(self).sink_model() == old(self).sink_model(),
    {
        let mut actions = self.inner.process_frame(envelope, direction, facts);
        let ghost first = output_actions_of(actions@);
        let mut close = false;
        match &envelope.frame {
            Frame::Start(_) => {
                let mut more = self.inner.set_transport_ready();
                let ghost second = output_actions_of(more@);
                actions.append(&mut more);
                proof {
                    assert(output_actions_of(actions@) =~= first + second);
                }
            },
            Frame::End | Frame::Cancel => {
                close = true;
            },
            _ => {},
        }
        proof {
            assert(first + Seq::<OutputActionView>::empty() =~= first);
        }
        (actions, close)
    }
}

/// Builds local input and output transports.
#[derive(Debug)]
pub struct LocalAudioTransport;

impl LocalAudioTransport {
    /// Build an input transport with the given params and source.
    pub fn input(params: TransportParams, source: AudioInputSource) -> (r: LocalAudioInputTransport)
        ensures
            r@ == (LocalInputModel {
                inner: InputModel::fresh(
                    "LocalAudioInput"@,
                    TransportParams {
                        audio_in_enabled: true,
                        audio_in_passthrough: true,
                        ..params
                    },
                ),
                source: Some(source),
                pacing: AudioPacing::AsFastAsPossible,
                format: AudioFormat::RawPcm,
                num_channels: params.audio_in_channels,
                feeding: false,
            }),
    {
        let mut params = params;
        params.audio_in_enabled = true;
        params.audio_in_passthrough = true;
        LocalAudioInputTransport::new(params, source)
    }

    /// Build an output transport with the given params and sink.
    pub fn output(params: TransportParams, sink: &AudioOutputSink) -> (r: LocalAudioOutputTransport)
        ensures
            r.inner_model() == OutputModel::fresh(
                "LocalAudioOutput"@,
                TransportParams { audio_out_enabled: true, ..params },
            ),
            match *sink {
                AudioOutputSink::Buffer => r.sink_model() matches LocalSink::Buffer(b) && b@.len()
                    == 0,
                AudioOutputSink::File(_) => r.sink_model() is File,
                AudioOutputSink::Discard => r.sink_model() is Discard,
            },
    {
        let mut params = params;
        params.audio_out_enabled = true;
        LocalAudioOutputTransport::new(params, sink)
    }
}

} // verus!
