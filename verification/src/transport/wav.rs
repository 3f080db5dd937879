//! WAV data.
use vstd::prelude::*;

use crate::transport::pcm::{encode_samples, pcm_of};

verus! {

/// What the header of WAV data says.
#[derive(Debug, Clone, Copy, PartialEq, Eq, Structural)]
pub struct WavHeader {
    pub channels: u16,
    pub sample_rate: u32,
    pub bits_per_sample: u16,
    /// Whether samples are integers.
    pub is_int: bool,
}

/// The header that `hound::WavReader` reads from WAV data; nothing where it
/// refuses the data.
pub uninterp spec fn wav_header_of(data: Seq<u8>) -> Option<WavHeader>;

/// The samples that `hound::WavReader::into_samples` reads from WAV data as
/// 16-bit integers; nothing where the reader refuses the data or one of the
/// samples cannot be read.
pub uninterp spec fn wav_samples_of(data: Seq<u8>) -> Option<Seq<i16>>;

/// Calls `hound::WavReader::new` and `spec`: the result is [`wav_header_of`].
#[verifier::external_body]
fn wav_header(data: &[u8]) -> (r: Option<WavHeader>)
    ensures
        r == wav_header_of(data@),
{
    hound::WavReader::new(data).ok().map(
        |reader| {
            let spec = reader.spec();
            WavHeader {
                channels: spec.channels,
                sample_rate: spec.sample_rate,
                bits_per_sample: spec.bits_per_sample,
                is_int: match spec.sample_format {
                    hound::SampleFormat::Int => true,
                    hound::SampleFormat::Float => false,
                },
            }
        },
    )
}

/// Calls `hound::WavReader::into_samples` and collects all samples: the result
/// is [`wav_samples_of`].
#[verifier::external_body]
fn wav_samples(data: &[u8]) -> (r: Option<Vec<i16>>)
    ensures
        match r {
            Some(v) => wav_samples_of(data@) == Some(v@),
            None => wav_samples_of(data@) is None,
        },
{
    let reader = hound::WavReader::new(data).ok()?;
    reader.into_samples::<i16>().collect::<Result<Vec<i16>, hound::Error>>().ok()
}

/// Audio read from WAV data.
#[derive(Debug)]
pub struct WavAudio {
    pub pcm: Vec<u8>,
    pub sample_rate: u32,
    pub num_channels: u16,
}

/// Whether a header is that of 16-bit integer samples.
pub open spec fn is_pcm16(header: WavHeader) -> bool {
    header.is_int && header.bits_per_sample == 16
}

/// The audio of samples under a header. Only 16-bit integer samples are taken.
pub fn audio_from_samples(header: WavHeader, samples: Option<Vec<i16>>) -> (r: Option<WavAudio>)
    ensures
        is_pcm16(header) && samples is Some ==> r is Some && r->0.pcm@ == pcm_of(samples->0@)
            && r->0.sample_rate == header.sample_rate && r->0.num_channels == header.channels,
        !is_pcm16(header) || samples is None ==> r is None,
{
    if !header.is_int || header.bits_per_sample != 16 {
        return None;
    }
    match samples {
        Some(samples) => Some(
            WavAudio {
                pcm: encode_samples(&samples),
                sample_rate: header.sample_rate,
                num_channels: header.channels,
            },
        ),
        None => None,
    }
}

/// Read WAV data and return its audio. Returns `None` if the data is not WAV,
/// if the samples are not 16-bit integers, or if one of them cannot be read.
pub fn read_wav_to_pcm(data: &[u8]) -> (r: Option<WavAudio>)
    ensures
        ({
            let header = wav_header_of(data@);
            let samples = wav_samples_of(data@);
            if header is Some && is_pcm16(header->0) && samples is Some {
                r is Some && r->0.pcm@ == pcm_of(samples->0) && r->0.sample_rate
                    == header->0.sample_rate && r->0.num_channels == header->0.channels
            } else {
                r is None
            }
        }),
{
    match wav_header(data) {
        Some(header) => audio_from_samples(header, wav_samples(data)),
        None => None,
    }
}

} // verus!
