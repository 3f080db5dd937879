//! Audio from a microphone.
use vstd::prelude::*;
use vstd::string::*;

use crate::frames::{text_opt, AudioOf, AudioRawFrame, Direction, Frame, FrameEnvelope, FrameView};
use crate::payload::bytes_from;
use crate::transport::input::{BaseInputTransport, InputAction, InputModel};
use crate::transport::local::{chunk_of_20ms, compute_chunk_bytes};
use crate::transport::params::TransportParams;
use crate::transport::pcm::{chunks, concatenated, lemma_chunks_keep_data, remainder};

verus! {

/// Configuration for microphone input capture.
#[derive(Debug)]
pub struct MicInputConfig {
    /// Device name to use. `None` selects the system default input device.
    pub device_name: Option<String>,
}

impl Default for MicInputConfig {
    fn default() -> (r: Self)
        ensures
            r.device_name is None,
    {
        MicInputConfig { device_name: None }
    }
}

/// Information about an available audio input device.
#[derive(Debug)]
pub struct InputDeviceInfo {
    /// Device name (pass to `MicInputConfig::device_name` to select).
    pub name: String,
    /// Default sample rate.
    pub sample_rate: u32,
    /// Default channel count.
    pub channels: u16,
    /// Whether this is the system default input device.
    pub is_default: bool,
}

/// Compute the maximum buffer size (~1 second of audio at the given device
/// params).
pub fn max_buffer_bytes(sample_rate: u32, channels: u16) -> (r: u64)
    ensures
        r == sample_rate * channels * 2,
{
    let (rate, count): (u64, u64) = (sample_rate as u64, channels as u64);
    assert(0 <= rate * count <= 0xFFFF_FFFF * 0xFFFF) by (nonlinear_arith)
        requires
            0 <= rate <= 0xFFFF_FFFF,
            0 <= count <= 0xFFFF,
    ;
    rate * count * 2
}

/// The newest bytes of a run, at most `max` of them.
pub open spec fn newest(data: Seq<u8>, max: nat) -> Seq<u8> {
    if data.len() > max {
        data.skip(data.len() - max)
    } else {
        data
    }
}

/// Adds captured audio to a buffer. Drops the oldest data if the buffer exceeds
/// its maximum size; returns how much was dropped.
pub fn buffer_captured(buffer: &mut Vec<u8>, captured: &mut Vec<u8>, max_bytes: u64) -> (r: usize)
    ensures
        final(buffer)@ == newest(old(buffer)@ + old(captured)@, max_bytes as nat),
        final(captured)@.len() == 0,
        r + final(buffer)@.len() == old(buffer)@.len() + old(captured)@.len(),
{
    buffer.append(captured);
    let n: usize = buffer.len();
    if n as u64 > max_bytes {
        let excess: usize = n - max_bytes as usize;
        let kept = buffer.split_off(excess);
        *buffer = kept;
        proof {
            assert(buffer@ =~= newest(old(buffer)@ + old(captured)@, max_bytes as nat));
        }
        return excess;
    }
    0
}

/// The captured audio waiting to be cut into chunks of 20ms.
#[derive(Debug)]
pub struct MicChunker {
    device_rate: u32,
    device_channels: u16,
    target_rate: u32,
    accumulator: Vec<u8>,
}

/// The state of a [`MicChunker`].
pub struct MicChunkerModel {
    pub device_rate: u32,
    pub device_channels: u16,
    pub target_rate: u32,
    pub waiting: Seq<u8>,
}

impl MicChunkerModel {
    /// The size of a chunk.
    pub open spec fn chunk_size(self) -> nat {
        chunk_of_20ms(self.device_rate, self.device_channels) as nat
    }
}

impl View for MicChunker {
    type V = MicChunkerModel;

    closed spec fn view(&self) -> MicChunkerModel {
        MicChunkerModel {
            device_rate: self.device_rate,
            device_channels: self.device_channels,
            target_rate: self.target_rate,
            waiting: self.accumulator@,
        }
    }
}

/// The runs of bytes in a list.
pub open spec fn runs_of(s: Seq<Vec<u8>>) -> Seq<Seq<u8>> {
    s.map_values(|v: Vec<u8>| v@)
}

impl MicChunker {
    pub fn new(device_rate: u32, device_channels: u16, target_rate: u32) -> (r: Self)
        ensures
            r@ == (MicChunkerModel {
                device_rate,
                device_channels,
                target_rate,
                waiting: Seq::empty(),
            }),
    {
        MicChunker { device_rate, device_channels, target_rate, accumulator: Vec::new() }
    }

    /// Takes captured audio and cuts off the complete 20ms chunks.
    pub fn push(&mut self, captured: &mut Vec<u8>) -> (r: Vec<Vec<u8>>)
        requires
            old(self)@.chunk_size() > 0,
        ensures
            runs_of(r@) == chunks(
                old(self)@.waiting + old(captured)@,
                old(self)@.chunk_size(),
            ),
            final(self)@ == (MicChunkerModel {
                waiting: remainder(
                    old(self)@.waiting + old(captured)@,
                    old(self)@.chunk_size(),
                ),
                ..old(self)@
            }),
            final(captured)@.len() == 0,
            concatenated(runs_of(r@)) + final(self)@.waiting == old(self)@.waiting
                + old(captured)@,
            forall|i: int|
                0 <= i < r@.len() ==> (#[trigger] r@[i])@.len() == old(self)@.chunk_size(),
            final(self)@.waiting.len() < old(self)@.chunk_size(),
    {
        let ghost size = self@.chunk_size();
        let size_bytes: u64 = compute_chunk_bytes(self.device_rate, self.device_channels);
        self.accumulator.append(captured);
        let ghost whole = self.accumulator@;
        let mut out: Vec<Vec<u8>> = Vec::new();
        proof {
            assert(runs_of(out@) + chunks(whole, size) =~= chunks(whole, size));
        }
        while self.accumulator.len() as u64 >= size_bytes
            invariant
                size > 0,
                size == size_bytes,
                self@ == (MicChunkerModel { waiting: self.accumulator@, ..old(self)@ }),
                runs_of(out@) + chunks(self.accumulator@, size) == chunks(whole, size),
                remainder(self.accumulator@, size) == remainder(whole, size),
            decreases self.accumulator@.len(),
        {
            let ghost before = self.accumulator@;
            let ghost done = runs_of(out@);
            let rest = self.accumulator.split_off(size_bytes as usize);
            let mut chunk = rest;
            std::mem::swap(&mut self.accumulator, &mut chunk);
            let ghost cut = chunk@;
            out.push(chunk);
            proof {
                assert(cut =~= before.take(size as int));
                assert(self.accumulator@ =~= before.skip(size as int));
                assert(runs_of(out@) =~= done + seq![cut]);
                assert(done + (seq![cut] + chunks(self.accumulator@, size)) =~= (done + seq![cut])
                    + chunks(self.accumulator@, size));
            }
        }
        proof {
            assert(chunks(self.accumulator@, size) =~= Seq::empty());
            assert(runs_of(out@) =~= chunks(whole, size));
            lemma_chunks_keep_data(whole, size);
            assert forall|i: int| 0 <= i < out@.len() implies (#[trigger] out@[i])@.len()
                == size by {
                assert(runs_of(out@)[i].len() == size);
            }
        }
        out
    }

    /// The rates between which chunks are to be resampled, where they differ.
    pub fn resampling(&self) -> (r: Option<(u32, u32)>)
        ensures
            r == if self@.device_rate != self@.target_rate {
                Some((self@.device_rate, self@.target_rate))
            } else {
                None::<(u32, u32)>
            },
    {
        if self.device_rate != self.target_rate {
            Some((self.device_rate, self.target_rate))
        } else {
            None
        }
    }

    /// The frame for a chunk, resampled where rates differ.
    pub fn frame(&self, chunk: Vec<u8>) -> (r: AudioRawFrame)
        ensures
            r@ == (AudioOf {
                audio: chunk@,
                sample_rate: self@.target_rate,
                num_channels: self@.device_channels,
            }),
    {
        AudioOf {
            audio: bytes_from(chunk),
            sample_rate: self.target_rate,
            num_channels: self.device_channels,
        }
    }
}

/// What a microphone input asks the program to do.
#[derive(Debug, Clone, Copy, PartialEq, Eq, Structural)]
pub enum MicAction {
    /// Carry out an action of the transport that this one is built on.
    Inner(InputAction),
    /// Stop capturing.
    StopCapture,
    /// Open the device and start to capture at this sample rate; report to
    /// `capture_started` if that succeeds.
    StartCapture { target_rate: u32 },
}

/// Actions of the transport that a microphone input is built on.
pub open spec fn mic_inner(actions: Seq<InputAction>) -> Seq<MicAction> {
    actions.map_values(|a: InputAction| MicAction::Inner(a))
}

fn emit_inner(list: &mut Vec<MicAction>, actions: Vec<InputAction>)
    ensures
        final(list)@ == old(list)@ + mic_inner(actions@),
{
    let ghost before = list@;
    let mut i: usize = 0;
    proof {
        assert(before + mic_inner(actions@.take(0)) =~= before);
    }
    while i < actions.len()
        invariant
            i <= actions@.len(),
            list@ == before + mic_inner(actions@.take(i as int)),
        decreases actions@.len() - i,
    {
        list.push(MicAction::Inner(actions[i]));
        proof {
            assert(before + mic_inner(actions@.take(i + 1)) =~= (before + mic_inner(
                actions@.take(i as int),
            )).push(MicAction::Inner(actions@[i as int])));
        }
        i = i + 1;
    }
    proof {
        assert(actions@.take(actions@.len() as int) =~= actions@);
    }
}

/// The state of a [`MicInput`].
pub struct MicModel {
    pub inner: InputModel,
    pub capturing: bool,
    /// The device to use, where it is not the default one.
    pub device_name: Option<Seq<char>>,
}

impl MicModel {
    /// Capturing starts, in place of an earlier one, where the audio queue is
    /// open and the sample rate known.
    pub open spec fn capture(self) -> (MicModel, Seq<MicAction>) {
        (
            MicModel { capturing: false, ..self },
            (if self.capturing {
                seq![MicAction::StopCapture]
            } else {
                Seq::empty()
            }) + (if self.inner.audio_open && self.inner.sample_rate != 0 {
                seq![MicAction::StartCapture { target_rate: self.inner.sample_rate }]
            } else {
                Seq::empty()
            }),
        )
    }

    /// The input after a frame, and what the frame calls for.
    pub open spec fn processed(self, frame: FrameView, direction: Direction) -> (
        MicModel,
        Seq<MicAction>,
    ) {
        let (inner, first) = self.inner.processed(frame, direction);
        match frame {
            FrameView::Start(_) => {
                let (inner, second) = inner.spawned();
                let (m, third) = MicModel { inner, ..self }.capture();
                (m, mic_inner(first) + mic_inner(second) + third)
            },
            FrameView::End | FrameView::Cancel => (
                MicModel { inner, capturing: false, ..self },
                mic_inner(first).push(MicAction::StopCapture),
            ),
            _ => (MicModel { inner, ..self }, mic_inner(first)),
        }
    }
}

/// Captures audio from the system microphone and feeds it into the pipeline.
///
/// Audio is captured in the background, chunked into 20ms frames, resampled to
/// the pipeline's sample rate if needed, and pushed through the input transport
/// for filtering and downstream delivery.
#[derive(Debug)]
pub struct MicInput {
    inner: BaseInputTransport,
    config: MicInputConfig,
    capturing: bool,
}

impl View for MicInput {
    type V = MicModel;

    closed spec fn view(&self) -> MicModel {
        MicModel {
            inner: self.inner@,
            capturing: self.capturing,
            device_name: text_opt(self.config.device_name),
        }
    }
}

impl MicInput {
    pub fn new(params: TransportParams, config: MicInputConfig) -> (r: Self)
        ensures
            r@ == (MicModel {
                inner: InputModel::fresh(
                    "MicInput"@,
                    TransportParams {
                        audio_in_enabled: true,
                        audio_in_passthrough: true,
                        ..params
                    },
                ),
                capturing: false,
                device_name: text_opt(config.device_name),
            }),
    {
        let mut params = params;
        params.audio_in_enabled = true;
        params.audio_in_passthrough = true;
        MicInput {
            inner: BaseInputTransport::with_name("MicInput".to_owned(), params),
            config,
            capturing: false,
        }
    }

    /// The configuration.
    pub fn config(&self) -> (r: &MicInputConfig)
        ensures
            text_opt(r.device_name) == self@.device_name,
    {
        &self.config
    }

    /// The transport that this one is built on.
    pub fn inner(&self) -> (r: &BaseInputTransport)
        ensures
            r@ == self@.inner,
    {
        &self.inner
    }

    /// Capturing has started.
    pub fn capture_started(&mut self)
        ensures
            final(self)@ == (MicModel { capturing: true, ..old(self)@ }),
    {
        self.capturing = true;
    }

    fn start_capture(&mut self, actions: &mut Vec<MicAction>)
        ensures
            final(self)@ == old(self)@.capture().0,
            final(actions)@ == old(actions)@ + old(self)@.capture().1,
    {
        if self.capturing {
            actions.push(MicAction::StopCapture);
        }
        self.capturing = false;
        let target_rate: u32 = self.inner.sample_rate();
        if self.inner.audio_in_sender() && target_rate != 0 {
            actions.push(MicAction::StartCapture { target_rate });
        }
        proof {
            assert(actions@ =~= old(actions)@ + old(self)@.capture().1);
        }
    }

    /// Processes a frame.
    pub fn process_frame(&mut self, envelope: &FrameEnvelope, direction: Direction) -> (r: Vec<
        MicAction,
    >)
        ensures
            (final(self)@, r@) == old(self)@.processed(envelope@.frame, direction),
    {
        let mut actions: Vec<MicAction> = Vec::new();
        let first = self.inner.process_frame(envelope, direction);
        emit_inner(&mut actions, first);
        match &envelope.frame {
            Frame::Start(_) => {
                let second = self.inner.set_transport_ready();
                emit_inner(&mut actions, second);
                self.start_capture(&mut actions);
            },
            Frame::End | Frame::Cancel => {
                self.capturing = false;
                actions.push(MicAction::StopCapture);
            },
            _ => {},
        }
        proof {
            assert(actions@ =~= old(self)@.processed(envelope@.frame, direction).1);
        }
        actions
    }
}

/// The capture buffer holds at most its maximum, and always the newest audio.
pub proof fn lemma_newest_is_a_suffix(data: Seq<u8>, max: nat)
    ensures
        newest(data, max).len() <= max,
        newest(data, max) == data.skip(data.len() - newest(data, max).len()),
        data.len() <= max ==> newest(data, max) == data,
{
    if data.len() <= max {
        assert(data.skip(0) =~= data);
    }
}

} // verus!
