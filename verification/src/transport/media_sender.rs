//! Media streaming for one output destination.
use bytes::{Bytes, BytesMut};
use vstd::prelude::*;
use vstd::string::*;

use crate::frames::{
    clone_image, clone_images, clone_text_opt, images_of, text_opt, AudioOf, Frame, FrameView,
    ImageOf, ImageRawFrame, TTSAudioOf,
};
use crate::payload::{
    buffer_clear, buffer_extend, buffer_freeze, buffer_len, buffer_new, buffer_of, buffer_split_to,
    bytes_as_slice, bytes_of,
};
use crate::transport::audio_output::{audio_of, extract_audio, AudioOutputConfig};
use crate::transport::params::TransportParams;
use crate::transport::pcm::{chunks, concatenated, lemma_chunks_keep_data, remainder};

verus! {

/// Tracks which kind of frame audio came from, so that the same kind can be
/// made again after chunking.
#[derive(Debug)]
pub enum AudioFrameKind {
    Plain,
    Tts { context_id: Option<String> },
    SpeechOutput,
}

/// What an [`AudioFrameKind`] says.
pub enum AudioFrameKindView {
    Plain,
    Tts { context_id: Option<Seq<char>> },
    SpeechOutput,
}

impl View for AudioFrameKind {
    type V = AudioFrameKindView;

    open spec fn view(&self) -> AudioFrameKindView {
        match *self {
            AudioFrameKind::Plain => AudioFrameKindView::Plain,
            AudioFrameKind::Tts { context_id } => AudioFrameKindView::Tts {
                context_id: text_opt(context_id),
            },
            AudioFrameKind::SpeechOutput => AudioFrameKindView::SpeechOutput,
        }
    }
}

/// The kind of an output audio frame.
pub open spec fn kind_of(frame: FrameView) -> AudioFrameKindView {
    match frame {
        FrameView::TTSAudioRaw(f) => AudioFrameKindView::Tts { context_id: f.context_id },
        FrameView::SpeechOutputAudioRaw(_) => AudioFrameKindView::SpeechOutput,
        _ => AudioFrameKindView::Plain,
    }
}

/// The frame of a kind that carries a chunk of audio.
pub open spec fn chunk_frame(
    kind: AudioFrameKindView,
    audio: Seq<u8>,
    sample_rate: u32,
    num_channels: u16,
) -> FrameView {
    match kind {
        AudioFrameKindView::Tts { context_id } => FrameView::TTSAudioRaw(
            TTSAudioOf { audio, sample_rate, num_channels, context_id },
        ),
        AudioFrameKindView::SpeechOutput => FrameView::SpeechOutputAudioRaw(
            AudioOf { audio, sample_rate, num_channels },
        ),
        AudioFrameKindView::Plain => FrameView::OutputAudioRaw(
            AudioOf { audio, sample_rate, num_channels },
        ),
    }
}

/// The video task of a sender.
#[derive(Debug, Clone, Copy, PartialEq, Eq, Structural)]
pub enum VideoTask {
    /// There is none.
    Idle,
    /// Writes the frames that are sent to it.
    Live,
    /// Shows the stored images in turn.
    Cycling,
}

/// What a sender asks the program to do.
#[derive(Debug)]
pub enum SenderAction {
    /// Start the mixer.
    StartMixer,
    /// Stop the mixer.
    StopMixer,
    /// Run an audio queue, empty to begin with.
    SpawnAudio,
    /// Run a clock queue, empty to begin with.
    SpawnClock,
    /// Run a video task.
    SpawnVideo(VideoTask),
    /// Put an end frame in the audio queue and wait for the queue, for so many
    /// seconds at most.
    FinishAudio { wait_secs: u64 },
    /// Put an end frame with this presentation time in the clock queue and wait
    /// for the queue, for so many seconds at most.
    FinishClock { pts: u64, wait_secs: u64 },
    /// Close the audio queue and wait for it, for so many seconds at most.
    CloseAudio { wait_secs: u64 },
    /// Close the clock queue and wait for it, for so many seconds at most.
    CloseClock { wait_secs: u64 },
    /// Abort the audio queue.
    AbortAudio,
    /// Abort the clock queue.
    AbortClock,
    /// Abort the video task.
    AbortVideo,
    /// Broadcast, for the sender's destination, that the bot stopped speaking.
    BroadcastBotStopped,
    /// Put a new frame in the audio queue.
    QueueAudio(Frame),
    /// Put the frame at hand in the audio queue.
    QueueThis,
    /// Put the frame at hand in the clock queue.
    QueueTimed,
    /// Send an image to the live video task.
    SendImage(ImageRawFrame),
    /// Hand the frame at hand to the mixer.
    ControlMixer,
}

/// What a [`SenderAction`] says.
pub enum SenderActionView {
    StartMixer,
    StopMixer,
    SpawnAudio,
    SpawnClock,
    SpawnVideo(VideoTask),
    FinishAudio { wait_secs: u64 },
    FinishClock { pts: u64, wait_secs: u64 },
    CloseAudio { wait_secs: u64 },
    CloseClock { wait_secs: u64 },
    AbortAudio,
    AbortClock,
    AbortVideo,
    BroadcastBotStopped,
    QueueAudio(FrameView),
    QueueThis,
    QueueTimed,
    SendImage(ImageOf<Seq<char>, Seq<u8>>),
    ControlMixer,
}

impl View for SenderAction {
    type V = SenderActionView;

    open spec fn view(&self) -> SenderActionView {
        match *self {
            SenderAction::StartMixer => SenderActionView::StartMixer,
            SenderAction::StopMixer => SenderActionView::StopMixer,
            SenderAction::SpawnAudio => SenderActionView::SpawnAudio,
            SenderAction::SpawnClock => SenderActionView::SpawnClock,
            SenderAction::SpawnVideo(t) => SenderActionView::SpawnVideo(t),
            SenderAction::FinishAudio { wait_secs } => SenderActionView::FinishAudio { wait_secs },
            SenderAction::FinishClock { pts, wait_secs } => SenderActionView::FinishClock {
                pts,
                wait_secs,
            },
            SenderAction::CloseAudio { wait_secs } => SenderActionView::CloseAudio { wait_secs },
            SenderAction::CloseClock { wait_secs } => SenderActionView::CloseClock { wait_secs },
            SenderAction::AbortAudio => SenderActionView::AbortAudio,
            SenderAction::AbortClock => SenderActionView::AbortClock,
            SenderAction::AbortVideo => SenderActionView::AbortVideo,
            SenderAction::BroadcastBotStopped => SenderActionView::BroadcastBotStopped,
            SenderAction::QueueAudio(f) => SenderActionView::QueueAudio(f@),
            SenderAction::QueueThis => SenderActionView::QueueThis,
            SenderAction::QueueTimed => SenderActionView::QueueTimed,
            SenderAction::SendImage(i) => SenderActionView::SendImage(i@),
            SenderAction::ControlMixer => SenderActionView::ControlMixer,
        }
    }
}

/// The actions in a list.
pub open spec fn sender_actions_of(s: Seq<SenderAction>) -> Seq<SenderActionView> {
    s.map_values(|a: SenderAction| a@)
}

fn emit(list: &mut Vec<SenderAction>, a: SenderAction)
    ensures
        sender_actions_of(final(list)@) == sender_actions_of(old(list)@).push(a@),
{
    list.push(a);
    proof {
        assert(sender_actions_of(list@) =~= sender_actions_of(old(list)@).push(a@));
    }
}

/// A list with one action, or none.
pub open spec fn given(condition: bool, action: SenderActionView) -> Seq<SenderActionView> {
    if condition {
        seq![action]
    } else {
        Seq::empty()
    }
}

/// The configuration of a [`MediaSender`].
#[derive(Debug, Clone, Copy, PartialEq, Eq, Structural)]
pub struct SenderConfig {
    pub sample_rate: u32,
    pub audio_chunk_size: usize,
    pub audio_out_enabled: bool,
    pub audio_out_channels: u16,
    pub audio_out_end_silence_secs: u32,
    pub has_mixer: bool,
    pub has_resampler: bool,
    pub video_out_enabled: bool,
    pub video_out_is_live: bool,
    pub video_out_width: u32,
    pub video_out_height: u32,
    pub video_out_framerate: u32,
}

/// The configuration that parameters give.
pub open spec fn sender_config(
    params: TransportParams,
    sample_rate: u32,
    audio_chunk_size: usize,
    has_mixer: bool,
    has_resampler: bool,
) -> SenderConfig {
    SenderConfig {
        sample_rate,
        audio_chunk_size,
        audio_out_enabled: params.audio_out_enabled,
        audio_out_channels: params.audio_out_channels,
        audio_out_end_silence_secs: params.audio_out_end_silence_secs,
        has_mixer,
        has_resampler,
        video_out_enabled: params.video_out_enabled,
        video_out_is_live: params.video_out_is_live,
        video_out_width: params.video_out_width,
        video_out_height: params.video_out_height,
        video_out_framerate: params.video_out_framerate,
    }
}

/// The state of a [`MediaSender`].
pub struct SenderModel {
    pub destination: Option<Seq<char>>,
    pub config: SenderConfig,
    /// Audio that is short of a chunk.
    pub buffer: Seq<u8>,
    pub kind: AudioFrameKindView,
    /// Whether the audio queue is open.
    pub audio_open: bool,
    /// Whether the clock queue is open.
    pub clock_open: bool,
    pub video: VideoTask,
    /// The images shown in turn.
    pub images: Seq<ImageOf<Seq<char>, Seq<u8>>>,
}

impl SenderModel {
    /// A sender that was not started yet.
    pub open spec fn fresh(destination: Option<Seq<char>>, config: SenderConfig) -> SenderModel {
        SenderModel {
            destination,
            config,
            buffer: Seq::empty(),
            kind: AudioFrameKindView::Plain,
            audio_open: false,
            clock_open: false,
            video: VideoTask::Idle,
            images: Seq::empty(),
        }
    }

    /// The video task that the configuration asks for.
    pub open spec fn video_wanted(self) -> VideoTask {
        if !self.config.video_out_enabled {
            VideoTask::Idle
        } else if self.config.video_out_is_live {
            VideoTask::Live
        } else {
            VideoTask::Cycling
        }
    }

    /// New queues and a new video task.
    pub open spec fn spawned(self) -> (SenderModel, Seq<SenderActionView>) {
        (
            SenderModel {
                audio_open: true,
                clock_open: true,
                video: if self.config.video_out_enabled {
                    self.video_wanted()
                } else {
                    self.video
                },
                ..self
            },
            seq![SenderActionView::SpawnAudio, SenderActionView::SpawnClock] + given(
                self.config.video_out_enabled,
                SenderActionView::SpawnVideo(self.video_wanted()),
            ),
        )
    }

    /// The sender starts.
    pub open spec fn started(self) -> (SenderModel, Seq<SenderActionView>) {
        let (s, actions) = self.spawned();
        (s, given(self.config.has_mixer, SenderActionView::StartMixer) + actions)
    }

    /// The sender without queues and video task.
    pub open spec fn halted(self) -> SenderModel {
        SenderModel { audio_open: false, clock_open: false, video: VideoTask::Idle, ..self }
    }

    /// The sender stops: the audio queue drains, then the clock queue, then the
    /// video task is aborted.
    pub open spec fn stopped(self) -> (SenderModel, Seq<SenderActionView>) {
        (
            self.halted(),
            given(self.audio_open, SenderActionView::FinishAudio { wait_secs: 5 }) + given(
                self.clock_open,
                SenderActionView::FinishClock { pts: u64::MAX, wait_secs: 5 },
            ) + given(self.video != VideoTask::Idle, SenderActionView::AbortVideo) + given(
                self.config.has_mixer,
                SenderActionView::StopMixer,
            ),
        )
    }

    /// The sender is cancelled: the queues are closed and not drained.
    pub open spec fn cancelled(self) -> (SenderModel, Seq<SenderActionView>) {
        (
            self.halted(),
            given(self.audio_open, SenderActionView::CloseAudio { wait_secs: 1 }) + given(
                self.clock_open,
                SenderActionView::CloseClock { wait_secs: 1 },
            ) + given(self.video != VideoTask::Idle, SenderActionView::AbortVideo),
        )
    }

    /// The user interrupts, where interruptions are allowed: everything that
    /// waits to be written is dropped.
    pub open spec fn interrupted(self, allow_interruptions: bool, was_speaking: bool) -> (
        SenderModel,
        Seq<SenderActionView>,
    ) {
        if !allow_interruptions {
            (self, Seq::empty())
        } else {
            let (s, spawned) = SenderModel { buffer: Seq::empty(), ..self.halted() }.spawned();
            (
                s,
                given(self.audio_open, SenderActionView::AbortAudio) + given(
                    self.clock_open,
                    SenderActionView::AbortClock,
                ) + given(self.video != VideoTask::Idle, SenderActionView::AbortVideo) + given(
                    was_speaking,
                    SenderActionView::BroadcastBotStopped,
                ) + spawned,
            )
        }
    }

    /// The audio that a frame adds: resampled where it has another rate and a
    /// resampler gave a result.
    pub open spec fn adapted(self, frame: FrameView, resampled: Option<Seq<u8>>) -> Seq<u8> {
        let audio = audio_of(frame)->0;
        if audio.sample_rate != self.config.sample_rate && resampled is Some {
            resampled->0
        } else {
            audio.audio
        }
    }

    /// Everything that waits to be cut into chunks once a frame has arrived.
    pub open spec fn gathered(self, frame: FrameView, resampled: Option<Seq<u8>>) -> Seq<u8> {
        self.buffer + self.adapted(frame, resampled)
    }

    /// The frames that a frame of audio completes.
    pub open spec fn completed(self, frame: FrameView, resampled: Option<Seq<u8>>) -> Seq<
        SenderActionView,
    > {
        chunks(
            self.gathered(frame, resampled),
            self.config.audio_chunk_size as nat,
        ).map_values(
            |data: Seq<u8>|
                SenderActionView::QueueAudio(
                    chunk_frame(
                        kind_of(frame),
                        data,
                        self.config.sample_rate,
                        audio_of(frame)->0.num_channels,
                    ),
                ),
        )
    }

    /// Audio arrives: it is buffered and cut into chunks for the audio queue.
    pub open spec fn audio_arrived(self, frame: FrameView, resampled: Option<Seq<u8>>) -> (
        SenderModel,
        Seq<SenderActionView>,
    ) {
        if !self.config.audio_out_enabled || audio_of(frame) is None {
            (self, Seq::empty())
        } else {
            (
                SenderModel {
                    kind: kind_of(frame),
                    buffer: remainder(
                        self.gathered(frame, resampled),
                        self.config.audio_chunk_size as nat,
                    ),
                    ..self
                },
                if self.audio_open {
                    self.completed(frame, resampled)
                } else {
                    Seq::empty()
                },
            )
        }
    }

    /// One image to be shown.
    pub open spec fn image_shown(self, image: ImageOf<Seq<char>, Seq<u8>>) -> (
        SenderModel,
        Seq<SenderActionView>,
    ) {
        if self.config.video_out_is_live {
            (self, given(self.video == VideoTask::Live, SenderActionView::SendImage(image)))
        } else {
            (SenderModel { images: seq![image], ..self }, Seq::empty())
        }
    }

    /// An image frame arrives.
    pub open spec fn image_arrived(self, frame: FrameView) -> (
        SenderModel,
        Seq<SenderActionView>,
    ) {
        if !self.config.video_out_enabled {
            (self, Seq::empty())
        } else {
            match frame {
                FrameView::OutputImageRaw(f) | FrameView::AssistantImageRaw(f) => self.image_shown(
                    f,
                ),
                FrameView::Sprite(images) => (SenderModel { images, ..self }, Seq::empty()),
                _ => (self, Seq::empty()),
            }
        }
    }
}

/// Manages media streaming for a single output destination.
///
/// Buffers incoming audio into fixed-size chunks, and says which queues are to
/// be run and what goes into them.
#[derive(Debug)]
pub struct MediaSender {
    /// Destination identifier (None = default sender).
    destination: Option<String>,
    config: SenderConfig,
    audio_buffer: BytesMut,
    current_frame_kind: AudioFrameKind,
    audio_open: bool,
    clock_open: bool,
    video: VideoTask,
    video_images: Vec<ImageRawFrame>,
}

impl View for MediaSender {
    type V = SenderModel;

    closed spec fn view(&self) -> SenderModel {
        SenderModel {
            destination: text_opt(self.destination),
            config: self.config,
            buffer: buffer_of(self.audio_buffer),
            kind: self.current_frame_kind@,
            audio_open: self.audio_open,
            clock_open: self.clock_open,
            video: self.video,
            images: images_of(self.video_images@),
        }
    }
}

impl MediaSender {
    pub fn new(
        destination: Option<String>,
        sample_rate: u32,
        audio_chunk_size: usize,
        params: &TransportParams,
        has_mixer: bool,
        has_resampler: bool,
    ) -> (r: Self)
        ensures
            r@ == SenderModel::fresh(
                text_opt(destination),
                sender_config(*params, sample_rate, audio_chunk_size, has_mixer, has_resampler),
            ),
    {
        let r = MediaSender {
            destination,
            config: SenderConfig {
                sample_rate,
                audio_chunk_size,
                audio_out_enabled: params.audio_out_enabled,
                audio_out_channels: params.audio_out_channels,
                audio_out_end_silence_secs: params.audio_out_end_silence_secs,
                has_mixer,
                has_resampler,
                video_out_enabled: params.video_out_enabled,
                video_out_is_live: params.video_out_is_live,
                video_out_width: params.video_out_width,
                video_out_height: params.video_out_height,
                video_out_framerate: params.video_out_framerate,
            },
            audio_buffer: buffer_new(),
            current_frame_kind: AudioFrameKind::Plain,
            audio_open: false,
            clock_open: false,
            video: VideoTask::Idle,
            video_images: Vec::new(),
        };
        proof {
            assert(images_of(r.video_images@) =~= Seq::empty());
        }
        r
    }

    /// The destination.
    pub fn destination(&self) -> (r: &Option<String>)
        ensures
            text_opt(*r) == self@.destination,
    {
        &self.destination
    }

    /// The configuration.
    pub fn config(&self) -> (r: SenderConfig)
        ensures
            r == self@.config,
    {
        self.config
    }

    /// The configuration of the sender's audio queue.
    pub fn audio_config(&self) -> (r: AudioOutputConfig)
        ensures
            r == (AudioOutputConfig {
                has_mixer: self@.config.has_mixer,
                sample_rate: self@.config.sample_rate,
                channels: self@.config.audio_out_channels,
                audio_chunk_size: self@.config.audio_chunk_size,
                end_silence_secs: self@.config.audio_out_end_silence_secs,
            }),
    {
        AudioOutputConfig {
            has_mixer: self.config.has_mixer,
            sample_rate: self.config.sample_rate,
            channels: self.config.audio_out_channels,
            audio_chunk_size: self.config.audio_chunk_size,
            end_silence_secs: self.config.audio_out_end_silence_secs,
        }
    }

    /// The images that the cycling video task shows in turn.
    pub fn images(&self) -> (r: &Vec<ImageRawFrame>)
        ensures
            images_of(r@) == self@.images,
    {
        &self.video_images
    }

    /// Asks for new queues and a new video task.
    fn spawn(&mut self, actions: &mut Vec<SenderAction>)
        ensures
            final(self)@ == old(self)@.spawned().0,
            sender_actions_of(final(actions)@) == sender_actions_of(old(actions)@)
                + old(self)@.spawned().1,
    {
        self.audio_open = true;
        emit(actions, SenderAction::SpawnAudio);
        self.clock_open = true;
        emit(actions, SenderAction::SpawnClock);
        if self.config.video_out_enabled {
            let task = if self.config.video_out_is_live {
                VideoTask::Live
            } else {
                VideoTask::Cycling
            };
            self.video = task;
            emit(actions, SenderAction::SpawnVideo(task));
        }
        proof {
            assert(sender_actions_of(actions@) =~= sender_actions_of(old(actions)@)
                + old(self)@.spawned().1);
        }
    }

    /// Starts the mixer, the queues and the video task.
    pub fn start(&mut self) -> (r: Vec<SenderAction>)
        ensures
            (final(self)@, sender_actions_of(r@)) == old(self)@.started(),
    {
        let mut actions: Vec<SenderAction> = Vec::new();
        if self.config.has_mixer {
            emit(&mut actions, SenderAction::StartMixer);
        }
        self.spawn(&mut actions);
        proof {
            assert(sender_actions_of(actions@) =~= old(self)@.started().1);
        }
        actions
    }

    /// Stops, once the queues have drained.
    pub fn stop(&mut self) -> (r: Vec<SenderAction>)
        ensures
            (final(self)@, sender_actions_of(r@)) == old(self)@.stopped(),
    {
        let mut actions: Vec<SenderAction> = Vec::new();
        if self.audio_open {
            emit(&mut actions, SenderAction::FinishAudio { wait_secs: 5 });
        }
        self.audio_open = false;
        if self.clock_open {
            emit(&mut actions, SenderAction::FinishClock { pts: u64::MAX, wait_secs: 5 });
        }
        self.clock_open = false;
        if self.video != VideoTask::Idle {
            emit(&mut actions, SenderAction::AbortVideo);
        }
        self.video = VideoTask::Idle;
        if self.config.has_mixer {
            emit(&mut actions, SenderAction::StopMixer);
        }
        proof {
            assert(sender_actions_of(actions@) =~= old(self)@.stopped().1);
        }
        actions
    }

    /// Stops at once.
    pub fn cancel(&mut self) -> (r: Vec<SenderAction>)
        ensures
            (final(self)@, sender_actions_of(r@)) == old(self)@.cancelled(),
    {
        let mut actions: Vec<SenderAction> = Vec::new();
        if self.audio_open {
            emit(&mut actions, SenderAction::CloseAudio { wait_secs: 1 });
        }
        self.audio_open = false;
        if self.clock_open {
            emit(&mut actions, SenderAction::CloseClock { wait_secs: 1 });
        }
        self.clock_open = false;
        if self.video != VideoTask::Idle {
            emit(&mut actions, SenderAction::AbortVideo);
        }
        self.video = VideoTask::Idle;
        proof {
            assert(sender_actions_of(actions@) =~= old(self)@.cancelled().1);
        }
        actions
    }

    /// The user interrupts: drops what waits to be written and starts afresh.
    pub fn handle_interruptions(&mut self, allow_interruptions: bool, was_speaking: bool) -> (r:
        Vec<SenderAction>)
        ensures
            (final(self)@, sender_actions_of(r@)) == old(self)@.interrupted(
                allow_interruptions,
                was_speaking,
            ),
    {
        let mut actions: Vec<SenderAction> = Vec::new();
        if !allow_interruptions {
            proof {
                assert(sender_actions_of(actions@) =~= Seq::empty());
            }
            return actions;
        }
        if self.audio_open {
            emit(&mut actions, SenderAction::AbortAudio);
        }
        self.audio_open = false;
        if self.clock_open {
            emit(&mut actions, SenderAction::AbortClock);
        }
        self.clock_open = false;
        if self.video != VideoTask::Idle {
            emit(&mut actions, SenderAction::AbortVideo);
        }
        self.video = VideoTask::Idle;
        buffer_clear(&mut self.audio_buffer);
        if was_speaking {
            emit(&mut actions, SenderAction::BroadcastBotStopped);
        }
        self.spawn(&mut actions);
        proof {
            assert(sender_actions_of(actions@) =~= old(self)@.interrupted(
                allow_interruptions,
                was_speaking,
            ).1);
        }
        actions
    }

    /// The rates between which a frame's audio is to be resampled before it is
    /// handed to `handle_audio_frame`.
    pub fn resampling(&self, frame: &Frame) -> (r: Option<(u32, u32)>)
        ensures
            r == if self@.config.audio_out_enabled && self@.config.has_resampler && audio_of(
                frame@,
            ) is Some && audio_of(frame@)->0.sample_rate != self@.config.sample_rate {
                Some((audio_of(frame@)->0.sample_rate, self@.config.sample_rate))
            } else {
                None::<(u32, u32)>
            },
    {
        if !self.config.audio_out_enabled || !self.config.has_resampler {
            return None;
        }
        match extract_audio(frame) {
            Some(audio) => {
                if audio.sample_rate != self.config.sample_rate {
                    Some((audio.sample_rate, self.config.sample_rate))
                } else {
                    None
                }
            },
            None => None,
        }
    }

    /// Whether the sender can take a frame: audio can be cut into chunks, and
    /// what then waits can be allocated.
    pub fn can_take(&self, frame: &Frame, resampled: &Option<Bytes>) -> (r: bool)
        ensures
            r == (self@.config.audio_out_enabled && audio_of(frame@) is Some ==> {
                &&& self@.config.audio_chunk_size > 0
                &&& self@.gathered(frame@, opt_bytes(*resampled)).len() <= isize::MAX
            }),
    {
        if !self.config.audio_out_enabled {
            return true;
        }
        let incoming = match extract_audio(frame) {
            Some(a) => a,
            None => return true,
        };
        let plain: usize = bytes_as_slice(&incoming.audio).len();
        let added: usize = match resampled {
            Some(data) => if incoming.sample_rate != self.config.sample_rate {
                bytes_as_slice(data).len()
            } else {
                plain
            },
            None => plain,
        };
        self.config.audio_chunk_size > 0 && buffer_len(&self.audio_buffer) as u128 + added as u128
            <= isize::MAX as u128
    }

    /// Audio arrives: buffers it and cuts it into chunks for the audio queue.
    /// Where its sample rate is not the sender's and there is no resampler, it
    /// is taken as it is.
    pub fn handle_audio_frame(&mut self, frame: &Frame, resampled: Option<Bytes>) -> (r: Vec<
        SenderAction,
    >)
        requires
            old(self)@.config.audio_out_enabled && audio_of(frame@) is Some ==> {
                &&& old(self)@.config.audio_chunk_size > 0
                &&& old(self)@.gathered(frame@, opt_bytes(resampled)).len() <= isize::MAX
            },
        ensures
            (final(self)@, sender_actions_of(r@)) == old(self)@.audio_arrived(
                frame@,
                opt_bytes(resampled),
            ),
    {
        let ghost pre = self@;
        let ghost extra = opt_bytes(resampled);
        let mut actions: Vec<SenderAction> = Vec::new();
        proof {
            assert(sender_actions_of(actions@) =~= Seq::empty());
        }
        if !self.config.audio_out_enabled {
            return actions;
        }
        let incoming = match extract_audio(frame) {
            Some(a) => a,
            None => return actions,
        };
        let kind = match frame {
            Frame::TTSAudioRaw(f) => AudioFrameKind::Tts {
                context_id: clone_text_opt(&f.context_id),
            },
            Frame::SpeechOutputAudioRaw(_) => AudioFrameKind::SpeechOutput,
            _ => AudioFrameKind::Plain,
        };
        self.current_frame_kind = kind;
        let ghost added = pre.adapted(frame@, extra);
        match &resampled {
            Some(data) => {
                if incoming.sample_rate != self.config.sample_rate {
                    buffer_extend(&mut self.audio_buffer, bytes_as_slice(data));
                } else {
                    buffer_extend(&mut self.audio_buffer, bytes_as_slice(&incoming.audio));
                }
            },
            None => {
                buffer_extend(&mut self.audio_buffer, bytes_as_slice(&incoming.audio));
            },
        }
        let size: usize = self.config.audio_chunk_size;
        let ghost whole = pre.buffer + added;
        let ghost label = |data: Seq<u8>|
            SenderActionView::QueueAudio(
                chunk_frame(
                    kind_of(frame@),
                    data,
                    pre.config.sample_rate,
                    audio_of(frame@)->0.num_channels,
                ),
            );
        let ghost open = self.audio_open;
        let ghost due = |data: Seq<u8>|
            if open {
                chunks(data, size as nat).map_values(label)
            } else {
                Seq::<SenderActionView>::empty()
            };
        proof {
            assert(sender_actions_of(actions@) + due(whole) =~= due(whole));
        }
        while buffer_len(&self.audio_buffer) >= size
            invariant
                size > 0,
                open == self.audio_open,
                size == pre.config.audio_chunk_size,
                self.config == pre.config,
                incoming@ == audio_of(frame@)->0,
                label == (|data: Seq<u8>|
                    SenderActionView::QueueAudio(
                        chunk_frame(
                            kind_of(frame@),
                            data,
                            pre.config.sample_rate,
                            audio_of(frame@)->0.num_channels,
                        ),
                    )),
                due == (|data: Seq<u8>|
                    if open {
                        chunks(data, size as nat).map_values(label)
                    } else {
                        Seq::<SenderActionView>::empty()
                    }),
                self@ == (SenderModel {
                    kind: kind_of(frame@),
                    buffer: buffer_of(self.audio_buffer),
                    ..pre
                }),
                remainder(whole, size as nat) == remainder(
                    buffer_of(self.audio_buffer),
                    size as nat,
                ),
                sender_actions_of(actions@) + due(buffer_of(self.audio_buffer)) == due(whole),
            decreases buffer_of(self.audio_buffer).len(),
        {
            let ghost before = buffer_of(self.audio_buffer);
            let ghost done = sender_actions_of(actions@);
            let chunk = buffer_freeze(buffer_split_to(&mut self.audio_buffer, size));
            let ghost data = bytes_of(chunk);
            let ghost rest = buffer_of(self.audio_buffer);
            if self.audio_open {
                let audio = AudioOf {
                    audio: chunk,
                    sample_rate: self.config.sample_rate,
                    num_channels: incoming.num_channels,
                };
                // Make a frame of the right kind again.
                let frame = match &self.current_frame_kind {
                    AudioFrameKind::Tts { context_id } => Frame::TTSAudioRaw(
                        TTSAudioOf {
                            audio: audio.audio,
                            sample_rate: audio.sample_rate,
                            num_channels: audio.num_channels,
                            context_id: clone_text_opt(context_id),
                        },
                    ),
                    AudioFrameKind::SpeechOutput => Frame::SpeechOutputAudioRaw(audio),
                    AudioFrameKind::Plain => Frame::OutputAudioRaw(audio),
                };
                emit(&mut actions, SenderAction::QueueAudio(frame));
            }
            proof {
                assert(chunks(before, size as nat).map_values(label) =~= seq![label(data)]
                    + chunks(rest, size as nat).map_values(label));
                if open {
                    assert(sender_actions_of(actions@) =~= done + seq![label(data)]);
                    assert(done + (seq![label(data)] + due(rest)) =~= (done + seq![label(data)])
                        + due(rest));
                }
            }
        }
        proof {
            let rest = buffer_of(self.audio_buffer);
            assert(due(rest) =~= Seq::empty());
            assert(sender_actions_of(actions@) =~= due(whole));
        }
        actions
    }

    /// Puts the frame at hand in the audio queue, to keep its place among the
    /// audio.
    pub fn enqueue_sync_frame(&self) -> (r: Vec<SenderAction>)
        ensures
            sender_actions_of(r@) == given(self@.audio_open, SenderActionView::QueueThis),
    {
        let mut actions: Vec<SenderAction> = Vec::new();
        if self.audio_open {
            emit(&mut actions, SenderAction::QueueThis);
        }
        proof {
            assert(sender_actions_of(actions@) =~= given(
                self@.audio_open,
                SenderActionView::QueueThis,
            ));
        }
        actions
    }

    /// Puts the frame at hand in the clock queue.
    pub fn handle_timed_frame(&self) -> (r: Vec<SenderAction>)
        ensures
            sender_actions_of(r@) == given(self@.clock_open, SenderActionView::QueueTimed),
    {
        let mut actions: Vec<SenderAction> = Vec::new();
        if self.clock_open {
            emit(&mut actions, SenderAction::QueueTimed);
        }
        proof {
            assert(sender_actions_of(actions@) =~= given(
                self@.clock_open,
                SenderActionView::QueueTimed,
            ));
        }
        actions
    }

    /// Hands the frame at hand to the mixer, if there is one.
    pub fn handle_mixer_control(&self) -> (r: Vec<SenderAction>)
        ensures
            sender_actions_of(r@) == given(
                self@.config.has_mixer,
                SenderActionView::ControlMixer,
            ),
    {
        let mut actions: Vec<SenderAction> = Vec::new();
        if self.config.has_mixer {
            emit(&mut actions, SenderAction::ControlMixer);
        }
        proof {
            assert(sender_actions_of(actions@) =~= given(
                self@.config.has_mixer,
                SenderActionView::ControlMixer,
            ));
        }
        actions
    }

    /// An image arrives: it is sent to the live video task, or stored for the
    /// cycling one.
    pub fn handle_image_frame(&mut self, frame: &Frame) -> (r: Vec<SenderAction>)
        ensures
            (final(self)@, sender_actions_of(r@)) == old(self)@.image_arrived(frame@),
    {
        let mut actions: Vec<SenderAction> = Vec::new();
        if self.config.video_out_enabled {
            match frame {
                Frame::OutputImageRaw(f) | Frame::AssistantImageRaw(f) => {
                    if self.config.video_out_is_live {
                        if self.video == VideoTask::Live {
                            emit(&mut actions, SenderAction::SendImage(clone_image(f)));
                        }
                    } else {
                        let mut images: Vec<ImageRawFrame> = Vec::new();
                        images.push(clone_image(f));
                        self.video_images = images;
                        proof {
                            assert(images_of(self.video_images@) =~= seq![f@]);
                        }
                    }
                },
                Frame::Sprite(images) => {
                    self.video_images = clone_images(images);
                },
                _ => {},
            }
        }
        proof {
            assert(sender_actions_of(actions@) =~= old(self)@.image_arrived(frame@).1);
        }
        actions
    }
}

/// The bytes of an optional buffer.
pub open spec fn opt_bytes(b: Option<Bytes>) -> Option<Seq<u8>> {
    match b {
        Some(x) => Some(bytes_of(x)),
        None => None,
    }
}

/// After an interruption nothing waits to be written, and the sender is as it
/// was after its start: no audio buffered, both queues open and new.
pub proof fn lemma_interruption_clears(s: SenderModel, was_speaking: bool)
    ensures
        s.interrupted(true, was_speaking).0.buffer == Seq::<u8>::empty(),
        s.interrupted(true, was_speaking).0.audio_open,
        s.interrupted(true, was_speaking).0.clock_open,
        s.interrupted(false, was_speaking) == (s, Seq::<SenderActionView>::empty()),
{
}

/// The audio of the frames that actions put in the audio queue.
pub open spec fn queued_audio(actions: Seq<SenderActionView>) -> Seq<Seq<u8>> {
    actions.map_values(
        |a: SenderActionView|
            match a {
                SenderActionView::QueueAudio(frame) => match audio_of(frame) {
                    Some(audio) => audio.audio,
                    None => Seq::empty(),
                },
                _ => Seq::empty(),
            },
    )
}

/// Whether actions do nothing but put audio frames of one kind in the audio
/// queue.
pub open spec fn all_of_kind(actions: Seq<SenderActionView>, kind: AudioFrameKindView) -> bool {
    forall|i: int|
        0 <= i < actions.len() ==> ((#[trigger] actions[i]) matches SenderActionView::QueueAudio(f)
            && audio_of(f) is Some && kind_of(f) == kind)
}

/// No audio is lost on its way to an open queue: what waited and what a frame
/// brings is queued in whole chunks, as frames of the same kind, and what is
/// short of a chunk waits.
pub proof fn lemma_audio_is_queued_or_waits(
    s: SenderModel,
    frame: FrameView,
    resampled: Option<Seq<u8>>,
)
    requires
        s.config.audio_out_enabled,
        s.audio_open,
        s.config.audio_chunk_size > 0,
        audio_of(frame) is Some,
    ensures
        ({
            let (after, actions) = s.audio_arrived(frame, resampled);
            &&& concatenated(queued_audio(actions)) + after.buffer == s.buffer + s.adapted(
                frame,
                resampled,
            )
            &&& forall|i: int|
                0 <= i < actions.len() ==> (#[trigger] queued_audio(actions)[i]).len()
                    == s.config.audio_chunk_size
            &&& all_of_kind(actions, kind_of(frame))
            &&& after.buffer.len() < s.config.audio_chunk_size
        }),
{
    let size = s.config.audio_chunk_size as nat;
    let data = s.gathered(frame, resampled);
    let actions = s.completed(frame, resampled);
    lemma_chunks_keep_data(data, size);
    assert(queued_audio(actions) =~= chunks(data, size));
}

impl SenderModel {
    /// The sender after a run of audio frames, each with its resampled audio
    /// where there is any, and all that they call for.
    pub open spec fn all_audio_arrived(self, frames: Seq<(FrameView, Option<Seq<u8>>)>) -> (
        SenderModel,
        Seq<SenderActionView>,
    )
        decreases frames.len(),
    {
        if frames.len() == 0 {
            (self, Seq::empty())
        } else {
            let (s, actions) = self.all_audio_arrived(frames.drop_last());
            let (s, more) = s.audio_arrived(frames.last().0, frames.last().1);
            (s, actions + more)
        }
    }

    /// The audio that a run of frames brings.
    pub open spec fn all_adapted(self, frames: Seq<(FrameView, Option<Seq<u8>>)>) -> Seq<u8>
        decreases frames.len(),
    {
        if frames.len() == 0 {
            Seq::empty()
        } else {
            self.all_adapted(frames.drop_last()) + self.adapted(frames.last().0, frames.last().1)
        }
    }
}

proof fn lemma_concatenated_append(a: Seq<Seq<u8>>, b: Seq<Seq<u8>>)
    ensures
        concatenated(a + b) == concatenated(a) + concatenated(b),
    decreases a.len(),
{
    if a.len() == 0 {
        assert(a + b =~= b);
        assert(concatenated(a) + concatenated(b) =~= concatenated(b));
    } else {
        assert((a + b).skip(1) =~= a.skip(1) + b);
        lemma_concatenated_append(a.skip(1), b);
        assert(concatenated(a + b) =~= concatenated(a) + concatenated(b));
    }
}

/// Over any run of audio frames nothing is lost on the way to an open queue:
/// what waited and what the frames bring is queued in order and in whole chunks,
/// and what is short of a chunk waits. What a frame puts in the queue is of its
/// kind.
pub proof fn lemma_runs_of_audio_are_queued_or_wait(
    s: SenderModel,
    frames: Seq<(FrameView, Option<Seq<u8>>)>,
)
    requires
        s.config.audio_out_enabled,
        s.audio_open,
        s.config.audio_chunk_size > 0,
        s.buffer.len() < s.config.audio_chunk_size,
        forall|k: int| 0 <= k < frames.len() ==> audio_of((#[trigger] frames[k]).0) is Some,
    ensures
        ({
            let (after, actions) = s.all_audio_arrived(frames);
            &&& concatenated(queued_audio(actions)) + after.buffer == s.buffer + s.all_adapted(
                frames,
            )
            &&& forall|i: int|
                0 <= i < actions.len() ==> (#[trigger] queued_audio(actions)[i]).len()
                    == s.config.audio_chunk_size
            &&& after.buffer.len() < s.config.audio_chunk_size
            &&& after.config == s.config && after.audio_open
        }),
        forall|k: int|
            0 <= k < frames.len() ==> all_of_kind(
                (#[trigger] s.all_audio_arrived(frames.take(k)).0.audio_arrived(
                    frames[k].0,
                    frames[k].1,
                )).1,
                kind_of(frames[k].0),
            ),
    decreases frames.len(),
{
    if frames.len() == 0 {
        assert(concatenated(queued_audio(Seq::empty())) =~= Seq::<u8>::empty());
        assert(concatenated(queued_audio(Seq::empty())) + s.buffer =~= s.buffer + s.all_adapted(
            frames,
        ));
    } else {
        let front = frames.drop_last();
        let n = frames.len() - 1;
        let (frame, resampled) = frames.last();
        assert(audio_of(frames[n].0) is Some);
        assert forall|k: int| 0 <= k < front.len() implies audio_of((#[trigger] front[k]).0) is Some by {
            assert(audio_of(frames[k].0) is Some);
        }
        lemma_runs_of_audio_are_queued_or_wait(s, front);
        let (mid, actions) = s.all_audio_arrived(front);
        lemma_audio_is_queued_or_waits(mid, frame, resampled);
        let (after, more) = mid.audio_arrived(frame, resampled);
        assert(queued_audio(actions + more) =~= queued_audio(actions) + queued_audio(more));
        lemma_concatenated_append(queued_audio(actions), queued_audio(more));
        assert(mid.adapted(frame, resampled) == s.adapted(frame, resampled));
        let (x, y) = (concatenated(queued_audio(actions)), concatenated(queued_audio(more)));
        assert(x + y + after.buffer =~= x + (y + after.buffer));
        assert(x + (mid.buffer + s.adapted(frame, resampled)) =~= (x + mid.buffer) + s.adapted(
            frame,
            resampled,
        ));
        assert((s.buffer + s.all_adapted(front)) + s.adapted(frame, resampled) =~= s.buffer
            + s.all_adapted(frames));
        assert forall|i: int| 0 <= i < (actions + more).len() implies (#[trigger] queued_audio(
            actions + more,
        )[i]).len() == s.config.audio_chunk_size by {
            if i < actions.len() {
                assert(queued_audio(actions + more)[i] == queued_audio(actions)[i]);
            } else {
                assert(queued_audio(actions + more)[i] == queued_audio(more)[i - actions.len()]);
            }
        }
        assert forall|k: int| 0 <= k < frames.len() implies all_of_kind(
            (#[trigger] s.all_audio_arrived(frames.take(k)).0.audio_arrived(
                frames[k].0,
                frames[k].1,
            )).1,
            kind_of(frames[k].0),
        ) by {
            if k < n {
                assert(frames.take(k) =~= front.take(k));
                assert(frames[k] == front[k]);
            } else {
                assert(frames.take(k) =~= front);
            }
        }
    }
}

/// The audio of output audio frames, one behind the other.
pub open spec fn all_audio(frames: Seq<FrameView>) -> Seq<u8>
    decreases frames.len(),
{
    if frames.len() == 0 {
        Seq::empty()
    } else {
        all_audio(frames.drop_last()) + audio_of(frames.last())->0.audio
    }
}

/// Frames that were not resampled.
pub open spec fn as_they_come(frames: Seq<FrameView>) -> Seq<(FrameView, Option<Seq<u8>>)> {
    frames.map_values(|f: FrameView| (f, None::<Seq<u8>>))
}

proof fn lemma_audio_as_it_comes(s: SenderModel, frames: Seq<FrameView>)
    ensures
        s.all_adapted(as_they_come(frames)) == all_audio(frames),
    decreases frames.len(),
{
    if frames.len() > 0 {
        assert(as_they_come(frames).drop_last() =~= as_they_come(frames.drop_last()));
        lemma_audio_as_it_comes(s, frames.drop_last());
    }
}

/// From an empty buffer, any run of frames that are not resampled is queued
/// byte for byte: what is queued and what waits is the audio of the frames, in
/// whole chunks but for what waits, and each frame's chunks are frames of its
/// kind.
pub proof fn lemma_audio_is_kept(s: SenderModel, frames: Seq<FrameView>)
    requires
        s.config.audio_out_enabled,
        s.audio_open,
        s.config.audio_chunk_size > 0,
        s.buffer.len() == 0,
        forall|k: int| 0 <= k < frames.len() ==> audio_of(#[trigger] frames[k]) is Some,
    ensures
        ({
            let (after, actions) = s.all_audio_arrived(as_they_come(frames));
            &&& concatenated(queued_audio(actions)) + after.buffer == all_audio(frames)
            &&& forall|i: int|
                0 <= i < actions.len() ==> (#[trigger] queued_audio(actions)[i]).len()
                    == s.config.audio_chunk_size
            &&& after.buffer.len() < s.config.audio_chunk_size
        }),
        forall|k: int|
            0 <= k < frames.len() ==> all_of_kind(
                (#[trigger] s.all_audio_arrived(as_they_come(frames).take(k)).0.audio_arrived(
                    frames[k],
                    None,
                )).1,
                kind_of(frames[k]),
            ),
{
    let run = as_they_come(frames);
    assert forall|k: int| 0 <= k < run.len() implies audio_of((#[trigger] run[k]).0) is Some by {
        assert(audio_of(frames[k]) is Some);
    }
    lemma_runs_of_audio_are_queued_or_wait(s, run);
    lemma_audio_as_it_comes(s, frames);
    assert(s.buffer + all_audio(frames) =~= all_audio(frames));
    assert forall|k: int| 0 <= k < frames.len() implies all_of_kind(
        (#[trigger] s.all_audio_arrived(run.take(k)).0.audio_arrived(frames[k], None)).1,
        kind_of(frames[k]),
    ) by {
        assert(run[k] == (frames[k], None::<Seq<u8>>));
        let step = s.all_audio_arrived(run.take(k)).0.audio_arrived(run[k].0, run[k].1);
    }
}

} // verus!
