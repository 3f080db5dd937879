//! Playback of input audio on an audio device.
use vstd::prelude::*;

use crate::frames::{text_opt, AudioRawFrame, Frame, FrameEnvelope, FrameView};

verus! {

/// How long to wait for the device to play what is buffered: half a second.
pub const DRAIN_LIMIT: u64 = 500_000_000;

/// Configuration for audio device playback.
#[derive(Debug)]
pub struct AudioPlayerConfig {
    /// Device name to use. `None` selects the system default output device.
    pub device_name: Option<String>,
}

impl Default for AudioPlayerConfig {
    fn default() -> (r: Self)
        ensures
            r.device_name is None,
    {
        AudioPlayerConfig { device_name: None }
    }
}

/// Playback on an open device.
#[derive(Debug, Clone, Copy, PartialEq, Eq, Structural)]
pub struct ActivePlayback {
    /// Source audio parameters (from the first frame).
    pub source_rate: u32,
    pub source_channels: u16,
    /// Device audio parameters.
    pub device_rate: u32,
    pub device_channels: u16,
    pub playing: bool,
    /// Number of samples to accumulate before starting playback.
    pub prefill_threshold: u64,
}

/// How far playback has come.
#[derive(Debug, Clone, Copy, PartialEq, Eq, Structural)]
pub enum PlaybackState {
    /// No audio has come yet.
    Pending,
    Active(ActivePlayback),
    /// The device was closed, or could not be opened.
    Finalized,
}

/// What a player asks the program to do with a frame.
#[derive(Debug, Clone, Copy, PartialEq, Eq)]
pub enum PlayerStep {
    /// Nothing.
    Pass,
    /// Open the device, report to `opened`, and go on with what it says.
    OpenDevice,
    /// Convert the frame's samples, which are those of so many channels,
    /// resampling them between rates and mapping them between channel counts
    /// where these are given, and buffer them; then report to `buffered`.
    Buffer { channels: u16, resample: Option<(u32, u32)>, remap: Option<(u16, u16)> },
    /// Wait for the buffer to drain, for `DRAIN_LIMIT` at most, and close the
    /// device.
    DrainAndClose,
}

impl ActivePlayback {
    /// The conversion that samples need.
    pub open spec fn conversion(self) -> PlayerStep {
        PlayerStep::Buffer {
            channels: self.source_channels,
            resample: if self.source_rate != self.device_rate {
                Some((self.source_rate, self.device_rate))
            } else {
                None
            },
            remap: if self.source_channels != self.device_channels {
                Some((self.source_channels, self.device_channels))
            } else {
                None
            },
        }
    }
}

/// Plays `InputAudioRaw` frames through a system audio device.
///
/// All frames pass through unchanged so downstream processors still see the
/// audio. The player is a tap, not a sink.
///
/// The device is opened on the first `InputAudioRaw` frame, and starts to play
/// once enough audio has been buffered to absorb scheduling jitter.
#[derive(Debug)]
pub struct AudioPlayer {
    config: AudioPlayerConfig,
    state: PlaybackState,
}

/// The state of an [`AudioPlayer`].
pub struct PlayerModel {
    /// The device to use, where it is not the default one.
    pub device_name: Option<Seq<char>>,
    pub state: PlaybackState,
}

impl View for AudioPlayer {
    type V = PlayerModel;

    closed spec fn view(&self) -> PlayerModel {
        PlayerModel { device_name: text_opt(self.config.device_name), state: self.state }
    }
}

impl PlayerModel {
    /// Audio arrives.
    pub open spec fn pushed(self) -> (PlayerModel, PlayerStep) {
        match self.state {
            PlaybackState::Pending => (
                PlayerModel { state: PlaybackState::Finalized, ..self },
                PlayerStep::OpenDevice,
            ),
            PlaybackState::Active(playback) => (self, playback.conversion()),
            PlaybackState::Finalized => (self, PlayerStep::Pass),
        }
    }

    /// The player after a frame, and what the frame calls for.
    pub open spec fn processed(self, frame: FrameView) -> (PlayerModel, PlayerStep) {
        match frame {
            FrameView::InputAudioRaw(_) => self.pushed(),
            FrameView::End | FrameView::Cancel => (
                PlayerModel { state: PlaybackState::Finalized, ..self },
                if self.state is Active {
                    PlayerStep::DrainAndClose
                } else {
                    PlayerStep::Pass
                },
            ),
            _ => (self, PlayerStep::Pass),
        }
    }
}

impl AudioPlayer {
    pub fn new(config: AudioPlayerConfig) -> (r: Self)
        ensures
            r@ == (PlayerModel {
                device_name: text_opt(config.device_name),
                state: PlaybackState::Pending,
            }),
    {
        AudioPlayer { config, state: PlaybackState::Pending }
    }

    /// The configuration.
    pub fn config(&self) -> (r: &AudioPlayerConfig)
        ensures
            text_opt(r.device_name) == self@.device_name,
    {
        &self.config
    }

    fn conversion(playback: &ActivePlayback) -> (r: PlayerStep)
        ensures
            r == playback.conversion(),
    {
        let resample: Option<(u32, u32)> = if playback.source_rate != playback.device_rate {
            Some((playback.source_rate, playback.device_rate))
        } else {
            None
        };
        let remap: Option<(u16, u16)> = if playback.source_channels != playback.device_channels {
            Some((playback.source_channels, playback.device_channels))
        } else {
            None
        };
        PlayerStep::Buffer { channels: playback.source_channels, resample, remap }
    }

    /// Audio arrives.
    pub fn push_audio(&mut self) -> (r: PlayerStep)
        ensures
            (final(self)@, r) == old(self)@.pushed(),
    {
        match &self.state {
            PlaybackState::Pending => {
                self.state = PlaybackState::Finalized;
                PlayerStep::OpenDevice
            },
            PlaybackState::Active(playback) => Self::conversion(playback),
            PlaybackState::Finalized => PlayerStep::Pass,
        }
    }

    /// The device was opened, with its sample rate and channel count, or could
    /// not be opened: what to do with the frame that asked for it.
    pub fn opened(&mut self, device: Option<(u32, u16)>, audio: &AudioRawFrame) -> (r: PlayerStep)
        ensures
            match device {
                Some((rate, channels)) => {
                    let playback = ActivePlayback {
                        source_rate: audio@.sample_rate,
                        source_channels: audio@.num_channels,
                        device_rate: rate,
                        device_channels: channels,
                        playing: false,
                        prefill_threshold: (rate * channels / 10) as u64,
                    };
                    &&& final(self)@ == PlayerModel {
                        state: PlaybackState::Active(playback),
                        ..old(self)@
                    }
                    &&& r == playback.conversion()
                },
                None => final(self)@ == old(self)@ && r == PlayerStep::Pass,
            },
            device matches Some((rate, channels)) ==> final(self)@.state is Active && ({
                let tenth = final(self)@.state->Active_0.prefill_threshold as int;
                10 * tenth <= rate * channels < 10 * (tenth + 1)
            }),
    {
        match device {
            Some((rate, channels)) => {
                let (wide_rate, wide_channels): (u64, u64) = (rate as u64, channels as u64);
                assert(0 <= wide_rate * wide_channels <= 0xFFFF_FFFF * 0xFFFF) by (nonlinear_arith)
                    requires
                        0 <= wide_rate <= 0xFFFF_FFFF,
                        0 <= wide_channels <= 0xFFFF,
                ;
                let playback = ActivePlayback {
                    source_rate: audio.sample_rate,
                    source_channels: audio.num_channels,
                    device_rate: rate,
                    device_channels: channels,
                    playing: false,
                    prefill_threshold: wide_rate * wide_channels / 10,
                };
                self.state = PlaybackState::Active(playback);
                Self::conversion(&playback)
            },
            None => PlayerStep::Pass,
        }
    }

    /// Samples were buffered, and so many are waiting now: whether the device is
    /// to start playing.
    pub fn buffered(&self, waiting: u64) -> (r: bool)
        ensures
            r == match self@.state {
                PlaybackState::Active(playback) => !playback.playing && waiting
                    >= playback.prefill_threshold,
                _ => false,
            },
    {
        match &self.state {
            PlaybackState::Active(playback) => !playback.playing && waiting
                >= playback.prefill_threshold,
            _ => false,
        }
    }

    /// The device has started playing.
    pub fn playing(&mut self)
        ensures
            final(self)@ == (PlayerModel {
                state: match old(self)@.state {
                    PlaybackState::Active(playback) => PlaybackState::Active(
                        ActivePlayback { playing: true, ..playback },
                    ),
                    other => other,
                },
                ..old(self)@
            }),
    {
        match &mut self.state {
            PlaybackState::Active(playback) => {
                playback.playing = true;
            },
            _ => {},
        }
    }

    /// Whether to stop waiting for the buffer to drain.
    pub fn drain_is_over(empty: bool, waited: u64) -> (r: bool)
        ensures
            r == (empty || waited >= DRAIN_LIMIT),
    {
        empty || waited >= DRAIN_LIMIT
    }

    /// Processes a frame. The frame itself always passes through.
    pub fn process_frame(&mut self, envelope: &FrameEnvelope) -> (r: PlayerStep)
        ensures
            (final(self)@, r) == old(self)@.processed(envelope@.frame),
    {
        match &envelope.frame {
            Frame::InputAudioRaw(_) => self.push_audio(),
            Frame::End | Frame::Cancel => {
                let active = matches!(self.state, PlaybackState::Active(_));
                self.state = PlaybackState::Finalized;
                if active {
                    PlayerStep::DrainAndClose
                } else {
                    PlayerStep::Pass
                }
            },
            _ => PlayerStep::Pass,
        }
    }
}

} // verus!
