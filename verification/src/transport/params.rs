//! Configuration of transports.
use vstd::prelude::*;
use vstd::string::*;

verus! {

/// Configuration for input and output transports.
///
/// Audio and video parameters control what media the transport processes. The
/// filter, the resamplers and the mixers belong to the program; the parameters
/// say which of them there are.
#[derive(Debug)]
pub struct TransportParams {
    // -- Audio input --
    pub audio_in_enabled: bool,
    /// Sample rate for input audio. `None` uses the rate from the start frame.
    pub audio_in_sample_rate: Option<u32>,
    pub audio_in_channels: u16,
    /// Whether input audio passes through a filter.
    pub audio_in_filter: bool,
    /// Whether input audio can be resampled.
    pub audio_in_resampler: bool,
    /// Start streaming audio immediately when the transport starts.
    pub audio_in_stream_on_start: bool,
    /// Pass input audio downstream through the pipeline.
    pub audio_in_passthrough: bool,
    // -- Audio output --
    pub audio_out_enabled: bool,
    /// Sample rate for output audio. `None` uses the rate from the start frame.
    pub audio_out_sample_rate: Option<u32>,
    pub audio_out_channels: u16,
    pub audio_out_bitrate: u32,
    /// Number of 10ms chunks to buffer before sending (default 4 = 40ms).
    pub audio_out_10ms_chunks: u32,
    /// Whether the default destination has an audio mixer.
    pub audio_out_mixer: bool,
    /// The named destinations that have an audio mixer of their own.
    pub audio_out_mixer_map: Vec<String>,
    /// Whether output audio can be resampled.
    pub audio_out_resampler: bool,
    /// Seconds of silence to send at the end for clean audio teardown.
    pub audio_out_end_silence_secs: u32,
    /// Named audio output destinations (in addition to the default sender).
    pub audio_out_destinations: Vec<String>,
    // -- Video input --
    pub video_in_enabled: bool,
    // -- Video output --
    pub video_out_enabled: bool,
    /// Named video output destinations (in addition to the default sender).
    pub video_out_destinations: Vec<String>,
    pub video_out_is_live: bool,
    pub video_out_width: u32,
    pub video_out_height: u32,
    pub video_out_bitrate: u32,
    pub video_out_framerate: u32,
    pub video_out_color_format: String,
    pub video_out_codec: Option<String>,
}

impl Default for TransportParams {
    fn default() -> (r: Self)
        ensures
            !r.audio_in_enabled,
            r.audio_in_sample_rate is None,
            r.audio_in_channels == 1,
            !r.audio_in_filter,
            !r.audio_in_resampler,
            r.audio_in_stream_on_start,
            r.audio_in_passthrough,
            !r.audio_out_enabled,
            r.audio_out_sample_rate is None,
            r.audio_out_channels == 1,
            r.audio_out_bitrate == 96_000,
            r.audio_out_10ms_chunks == 4,
            !r.audio_out_mixer,
            r.audio_out_mixer_map@.len() == 0,
            !r.audio_out_resampler,
            r.audio_out_end_silence_secs == 2,
            r.audio_out_destinations@.len() == 0,
            !r.video_in_enabled,
            !r.video_out_enabled,
            r.video_out_destinations@.len() == 0,
            !r.video_out_is_live,
            r.video_out_width == 1024,
            r.video_out_height == 768,
            r.video_out_bitrate == 800_000,
            r.video_out_framerate == 30,
            r.video_out_color_format@ == "RGB"@,
            r.video_out_codec is None,
    {
        Self {
            audio_in_enabled: false,
            audio_in_sample_rate: None,
            audio_in_channels: 1,
            audio_in_filter: false,
            audio_in_resampler: false,
            audio_in_stream_on_start: true,
            audio_in_passthrough: true,
            audio_out_enabled: false,
            audio_out_sample_rate: None,
            audio_out_channels: 1,
            audio_out_bitrate: 96_000,
            audio_out_10ms_chunks: 4,
            audio_out_mixer: false,
            audio_out_mixer_map: Vec::new(),
            audio_out_resampler: false,
            audio_out_end_silence_secs: 2,
            audio_out_destinations: Vec::new(),
            video_in_enabled: false,
            video_out_enabled: false,
            video_out_destinations: Vec::new(),
            video_out_is_live: false,
            video_out_width: 1024,
            video_out_height: 768,
            video_out_bitrate: 800_000,
            video_out_framerate: 30,
            video_out_color_format: "RGB".to_owned(),
            video_out_codec: None,
        }
    }
}

} // verus!
