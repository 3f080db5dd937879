//! The audio queue of an output: writing audio and noticing when the bot speaks.
use serde_json::Value;
use vstd::prelude::*;

use crate::frames::{clone_audio, AudioOf, AudioRawFrame, Frame, FrameEnvelope, FrameView};
use crate::json::{json_of, Json};
use crate::payload::{bytes_as_slice, bytes_from};
use crate::transport::pcm::{is_silence, silence_chunks, silent, zero_bytes, zeros};

verus! {

/// Silence duration (without mixer) before detecting that the bot stopped
/// speaking: 350 milliseconds.
pub const BOT_VAD_STOP: u64 = 350_000_000;

/// Fallback silence duration (with mixer) before detecting that the bot stopped
/// speaking: 3 seconds.
pub const BOT_VAD_STOP_FALLBACK: u64 = 3_000_000_000;

/// Period between `BotSpeaking` frames while the bot is speaking: 200
/// milliseconds.
pub const BOT_SPEAKING_FRAME_PERIOD: u64 = 200_000_000;

/// What the audio queue asks the program to do.
#[derive(Debug)]
pub enum AudioOutputAction {
    /// Broadcast a frame both directions, for the sender's destination.
    Broadcast(Frame),
    /// Send a new frame downstream.
    SendDownstream(Frame),
    /// Write audio to the external destination.
    WriteAudio(AudioRawFrame),
    /// Mix the audio, if there is a mixer, and write it; then report whether
    /// the write succeeded.
    PlayAudio(AudioRawFrame),
    /// Send a transport message.
    SendMessage(Value),
    /// Write a keypad tone.
    WriteDtmf(u8),
    /// Hand the frame to the transport.
    WriteTransportFrame,
    /// Push the frame downstream.
    Forward,
    /// The queue has come to its end.
    Exit,
}

/// What an [`AudioOutputAction`] says.
pub enum AudioOutputActionView {
    Broadcast(FrameView),
    SendDownstream(FrameView),
    WriteAudio(AudioOf<Seq<u8>>),
    PlayAudio(AudioOf<Seq<u8>>),
    SendMessage(Json),
    WriteDtmf(u8),
    WriteTransportFrame,
    Forward,
    Exit,
}

impl View for AudioOutputAction {
    type V = AudioOutputActionView;

    open spec fn view(&self) -> AudioOutputActionView {
        match *self {
            AudioOutputAction::Broadcast(f) => AudioOutputActionView::Broadcast(f@),
            AudioOutputAction::SendDownstream(f) => AudioOutputActionView::SendDownstream(f@),
            AudioOutputAction::WriteAudio(a) => AudioOutputActionView::WriteAudio(a@),
            AudioOutputAction::PlayAudio(a) => AudioOutputActionView::PlayAudio(a@),
            AudioOutputAction::SendMessage(m) => AudioOutputActionView::SendMessage(json_of(m)),
            AudioOutputAction::WriteDtmf(b) => AudioOutputActionView::WriteDtmf(b),
            AudioOutputAction::WriteTransportFrame => AudioOutputActionView::WriteTransportFrame,
            AudioOutputAction::Forward => AudioOutputActionView::Forward,
            AudioOutputAction::Exit => AudioOutputActionView::Exit,
        }
    }
}

/// The actions in a list.
pub open spec fn audio_actions_of(s: Seq<AudioOutputAction>) -> Seq<AudioOutputActionView> {
    s.map_values(|a: AudioOutputAction| a@)
}

fn emit(list: &mut Vec<AudioOutputAction>, a: AudioOutputAction)
    ensures
        audio_actions_of(final(list)@) == audio_actions_of(old(list)@).push(a@),
{
    list.push(a);
    proof {
        assert(audio_actions_of(list@) =~= audio_actions_of(old(list)@).push(a@));
    }
}

/// The audio of an output audio frame.
pub open spec fn audio_of(frame: FrameView) -> Option<AudioOf<Seq<u8>>> {
    match frame {
        FrameView::OutputAudioRaw(f) => Some(f),
        FrameView::TTSAudioRaw(f) => Some(
            AudioOf {
                audio: f.audio,
                sample_rate: f.sample_rate,
                num_channels: f.num_channels,
            },
        ),
        FrameView::SpeechOutputAudioRaw(f) => Some(f),
        _ => None,
    }
}

/// Extract the audio from an output audio frame.
pub fn extract_audio(frame: &Frame) -> (r: Option<AudioRawFrame>)
    ensures
        match r {
            Some(a) => audio_of(frame@) == Some(a@),
            None => audio_of(frame@) is None,
        },
{
    match frame {
        Frame::OutputAudioRaw(f) => Some(clone_audio(f)),
        Frame::TTSAudioRaw(f) => Some(
            AudioOf {
                audio: f.audio.clone(),
                sample_rate: f.sample_rate,
                num_channels: f.num_channels,
            },
        ),
        Frame::SpeechOutputAudioRaw(f) => Some(clone_audio(f)),
        _ => None,
    }
}

/// State tracked in the audio queue for bot speaking detection.
#[derive(Debug, Clone, Copy, PartialEq, Eq, Structural)]
pub struct BotSpeakingState {
    pub speaking: bool,
    pub tts_audio_received: bool,
    pub last_speaking_frame_time: u64,
    pub last_speech_time: u64,
}

/// How much time has passed since a moment.
pub open spec fn since(now: u64, then: u64) -> u64 {
    if now >= then {
        (now - then) as u64
    } else {
        0
    }
}

fn time_since(now: u64, moment: u64) -> (r: u64)
    ensures
        r == since(now, moment),
{
    if now >= moment {
        now - moment
    } else {
        0
    }
}

impl BotSpeakingState {
    /// The bot starts speaking, unless it speaks already.
    pub open spec fn started(self) -> (BotSpeakingState, Seq<AudioOutputActionView>) {
        if self.speaking {
            (self, Seq::empty())
        } else {
            (
                BotSpeakingState { speaking: true, ..self },
                seq![AudioOutputActionView::Broadcast(FrameView::BotStartedSpeaking)],
            )
        }
    }

    /// The bot stops speaking, if it speaks.
    pub open spec fn stopped(self) -> (BotSpeakingState, Seq<AudioOutputActionView>) {
        if self.speaking {
            (
                BotSpeakingState { speaking: false, tts_audio_received: false, ..self },
                seq![AudioOutputActionView::Broadcast(FrameView::BotStoppedSpeaking)],
            )
        } else {
            (self, Seq::empty())
        }
    }

    /// The bot is heard speaking at `now`.
    pub open spec fn heard(self, now: u64) -> (BotSpeakingState, Seq<AudioOutputActionView>) {
        let (s, actions) = self.started();
        let s = BotSpeakingState { last_speech_time: now, ..s };
        if since(now, s.last_speaking_frame_time) >= BOT_SPEAKING_FRAME_PERIOD {
            (
                BotSpeakingState { last_speaking_frame_time: now, ..s },
                actions.push(AudioOutputActionView::SendDownstream(FrameView::BotSpeaking)),
            )
        } else {
            (s, actions)
        }
    }

    pub fn new(now: u64) -> (r: Self)
        ensures
            r == (BotSpeakingState {
                speaking: false,
                tts_audio_received: false,
                last_speaking_frame_time: now,
                last_speech_time: now,
            }),
    {
        Self {
            speaking: false,
            tts_audio_received: false,
            last_speaking_frame_time: now,
            last_speech_time: now,
        }
    }

    /// The bot starts speaking, unless it speaks already.
    fn bot_started_speaking(&mut self, actions: &mut Vec<AudioOutputAction>)
        ensures
            *final(self) == old(self).started().0,
            audio_actions_of(final(actions)@) == audio_actions_of(old(actions)@)
                + old(self).started().1,
    {
        if !self.speaking {
            self.speaking = true;
            emit(actions, AudioOutputAction::Broadcast(Frame::BotStartedSpeaking));
        }
        proof {
            assert(audio_actions_of(actions@) =~= audio_actions_of(old(actions)@)
                + old(self).started().1);
        }
    }

    /// The bot stops speaking, if it speaks.
    fn bot_stopped_speaking(&mut self, actions: &mut Vec<AudioOutputAction>)
        ensures
            *final(self) == old(self).stopped().0,
            audio_actions_of(final(actions)@) == audio_actions_of(old(actions)@)
                + old(self).stopped().1,
    {
        if self.speaking {
            self.speaking = false;
            self.tts_audio_received = false;
            emit(actions, AudioOutputAction::Broadcast(Frame::BotStoppedSpeaking));
        }
        proof {
            assert(audio_actions_of(actions@) =~= audio_actions_of(old(actions)@)
                + old(self).stopped().1);
        }
    }

    /// The bot is heard speaking: emits the periodic `BotSpeaking` frame.
    fn bot_currently_speaking(&mut self, actions: &mut Vec<AudioOutputAction>, now: u64)
        ensures
            *final(self) == old(self).heard(now).0,
            audio_actions_of(final(actions)@) == audio_actions_of(old(actions)@)
                + old(self).heard(now).1,
    {
        self.bot_started_speaking(actions);
        self.last_speech_time = now;
        if time_since(now, self.last_speaking_frame_time) >= BOT_SPEAKING_FRAME_PERIOD {
            self.last_speaking_frame_time = now;
            emit(actions, AudioOutputAction::SendDownstream(Frame::BotSpeaking));
        }
        proof {
            assert(audio_actions_of(actions@) =~= audio_actions_of(old(actions)@)
                + old(self).heard(now).1);
        }
    }
}

/// The configuration of an audio queue.
#[derive(Debug, Clone, Copy, PartialEq, Eq, Structural)]
pub struct AudioOutputConfig {
    pub has_mixer: bool,
    pub sample_rate: u32,
    pub channels: u16,
    pub audio_chunk_size: usize,
    pub end_silence_secs: u32,
}

impl AudioOutputConfig {
    /// How many bytes of silence follow the end.
    pub open spec fn silence_bytes(self) -> int {
        self.sample_rate as int * self.channels as int * 2 * self.end_silence_secs as int
    }

    /// The trailing silence can be counted and cut into chunks.
    pub open spec fn wf(self) -> bool {
        &&& self.silence_bytes() <= usize::MAX
        &&& self.silence_bytes() > 0 ==> self.audio_chunk_size > 0
    }

    /// The trailing silence, chunk by chunk.
    pub open spec fn trailing_silence(self) -> Seq<AudioOutputActionView> {
        silence_chunks(self.silence_bytes() as nat, self.audio_chunk_size as nat).map_values(
            |data: Seq<u8>|
                AudioOutputActionView::WriteAudio(
                    AudioOf {
                        audio: data,
                        sample_rate: self.sample_rate,
                        num_channels: self.channels,
                    },
                ),
        )
    }

    /// Whether the trailing silence can be counted and cut into chunks.
    pub fn is_valid(&self) -> (r: bool)
        ensures
            r == self.wf(),
    {
        assert(0 <= self.sample_rate * self.channels * 2 * self.end_silence_secs <= 0xFFFF_FFFF
            * 0xFFFF * 2 * 0xFFFF_FFFF && 0 <= self.sample_rate * self.channels * 2 <= 0xFFFF_FFFF
            * 0xFFFF * 2 && 0 <= self.sample_rate * self.channels <= 0xFFFF_FFFF * 0xFFFF)
            by (nonlinear_arith)
            requires
                0 <= self.sample_rate <= 0xFFFF_FFFF,
                0 <= self.channels <= 0xFFFF,
                0 <= self.end_silence_secs <= 0xFFFF_FFFF,
        ;
        let bytes: u128 = (self.sample_rate as u128) * (self.channels as u128) * 2 * (
        self.end_silence_secs as u128);
        bytes <= usize::MAX as u128 && (bytes == 0 || self.audio_chunk_size > 0)
    }
}

/// The state of an [`AudioOutput`].
pub struct AudioOutputModel {
    pub config: AudioOutputConfig,
    pub bot: BotSpeakingState,
    /// Whether the queue has come to its end.
    pub done: bool,
}

impl AudioOutputModel {
    /// How long the queue waits for a frame before the bot counts as silent.
    pub open spec fn patience(self) -> u64 {
        if self.config.has_mixer {
            BOT_VAD_STOP_FALLBACK
        } else {
            BOT_VAD_STOP
        }
    }

    /// What the bot speaking detection makes of a frame.
    pub open spec fn detected(self, frame: FrameView, now: u64) -> (
        BotSpeakingState,
        Seq<AudioOutputActionView>,
    ) {
        match frame {
            FrameView::End => self.bot.stopped(),
            FrameView::TTSAudioRaw(_) => BotSpeakingState {
                tts_audio_received: true,
                ..self.bot
            }.heard(now),
            FrameView::SpeechOutputAudioRaw(f) => if !silent(f.audio) {
                self.bot.heard(now)
            } else if since(now, self.bot.last_speech_time) >= BOT_VAD_STOP {
                self.bot.stopped()
            } else {
                (self.bot, Seq::empty())
            },
            FrameView::TTSStopped { .. } => if self.bot.tts_audio_received {
                self.bot.stopped()
            } else {
                (self.bot, Seq::empty())
            },
            _ => (self.bot, Seq::empty()),
        }
    }

    /// What is done with a frame.
    pub open spec fn handled(frame: FrameView) -> Seq<AudioOutputActionView> {
        match frame {
            FrameView::End => seq![AudioOutputActionView::Exit],
            FrameView::TTSAudioRaw(_)
            | FrameView::SpeechOutputAudioRaw(_)
            | FrameView::OutputAudioRaw(_) => seq![
                AudioOutputActionView::PlayAudio(audio_of(frame)->0),
            ],
            FrameView::TTSStopped { .. } => seq![AudioOutputActionView::Forward],
            FrameView::OutputTransportMessage { message } => seq![
                AudioOutputActionView::SendMessage(message),
                AudioOutputActionView::Forward,
            ],
            FrameView::OutputDTMF { button } => seq![
                AudioOutputActionView::WriteDtmf(button),
                AudioOutputActionView::Forward,
            ],
            _ => seq![
                AudioOutputActionView::WriteTransportFrame,
                AudioOutputActionView::Forward,
            ],
        }
    }

    /// The queue after a frame, and what the frame calls for: at the end the
    /// trailing silence, then what bot speaking detection makes of the frame,
    /// then what is done with it.
    pub open spec fn received(self, frame: FrameView, now: u64) -> (
        AudioOutputModel,
        Seq<AudioOutputActionView>,
    ) {
        let (bot, detected) = self.detected(frame, now);
        let silence = if frame is End {
            self.config.trailing_silence()
        } else {
            Seq::empty()
        };
        (
            AudioOutputModel { bot, done: self.done || frame is End, ..self },
            silence + detected + Self::handled(frame),
        )
    }
}

/// The audio queue of one destination.
///
/// Takes the frames of the queue one by one. Tracks whether the bot is
/// speaking, and says what is to be written and what goes downstream.
#[derive(Debug)]
pub struct AudioOutput {
    config: AudioOutputConfig,
    bot: BotSpeakingState,
    done: bool,
}

impl View for AudioOutput {
    type V = AudioOutputModel;

    closed spec fn view(&self) -> AudioOutputModel {
        AudioOutputModel { config: self.config, bot: self.bot, done: self.done }
    }
}

impl AudioOutput {
    pub fn new(config: AudioOutputConfig, now: u64) -> (r: Self)
        ensures
            r@.config == config,
            r@.bot == (BotSpeakingState {
                speaking: false,
                tts_audio_received: false,
                last_speaking_frame_time: now,
                last_speech_time: now,
            }),
            !r@.done,
    {
        AudioOutput { config, bot: BotSpeakingState::new(now), done: false }
    }

    /// How long to wait for a frame before calling `on_timeout`.
    pub fn timeout(&self) -> (r: u64)
        ensures
            r == self@.patience(),
    {
        if self.config.has_mixer {
            BOT_VAD_STOP_FALLBACK
        } else {
            BOT_VAD_STOP
        }
    }

    /// Whether the bot is speaking.
    pub fn bot_speaking(&self) -> (r: bool)
        ensures
            r == self@.bot.speaking,
    {
        self.bot.speaking
    }

    /// Whether the queue has come to its end.
    pub fn is_done(&self) -> (r: bool)
        ensures
            r == self@.done,
    {
        self.done
    }

    /// No frame for a while: if the bot was speaking, it has stopped.
    pub fn on_timeout(&mut self) -> (r: Vec<AudioOutputAction>)
        ensures
            final(self)@ == (AudioOutputModel { bot: old(self)@.bot.stopped().0, ..old(self)@ }),
            audio_actions_of(r@) == old(self)@.bot.stopped().1,
    {
        let mut actions: Vec<AudioOutputAction> = Vec::new();
        self.bot.bot_stopped_speaking(&mut actions);
        proof {
            assert(audio_actions_of(actions@) =~= old(self)@.bot.stopped().1);
        }
        actions
    }

    /// The source of frames is gone.
    pub fn on_closed(&mut self)
        ensures
            final(self)@ == (AudioOutputModel { done: true, ..old(self)@ }),
    {
        self.done = true;
    }

    /// Writes the trailing silence.
    fn end_silence(&self, actions: &mut Vec<AudioOutputAction>)
        requires
            self@.config.wf(),
        ensures
            audio_actions_of(final(actions)@) == audio_actions_of(old(actions)@)
                + self@.config.trailing_silence(),
    {
        let ghost config = self.config;
        let (rate, channels, secs): (usize, usize, usize) = (
            self.config.sample_rate as usize,
            self.config.channels as usize,
            self.config.end_silence_secs as usize,
        );
        let ghost size = config.audio_chunk_size as nat;
        if rate == 0 || channels == 0 || secs == 0 {
            proof {
                assert(config.silence_bytes() == 0) by (nonlinear_arith)
                    requires
                        config.silence_bytes() == config.sample_rate as int * config.channels as int
                            * 2 * config.end_silence_secs as int,
                        config.sample_rate == 0 || config.channels == 0 || config.end_silence_secs
                            == 0,
                ;
                assert(audio_actions_of(actions@) =~= audio_actions_of(actions@)
                    + config.trailing_silence());
            }
            return;
        }
        assert(0 < rate * channels <= config.silence_bytes() && 0 < rate * channels * 2
            <= config.silence_bytes()) by (nonlinear_arith)
            requires
                config.silence_bytes() == rate * channels * 2 * secs,
                0 < rate,
                0 < channels,
                0 < secs,
        ;
        let mut remaining: usize = rate * channels * 2 * secs;
        let ghost label = |data: Seq<u8>|
            AudioOutputActionView::WriteAudio(
                AudioOf {
                    audio: data,
                    sample_rate: config.sample_rate,
                    num_channels: config.channels,
                },
            );
        let ghost all = config.trailing_silence();
        let ghost before = audio_actions_of(actions@);
        proof {
            assert(before + all =~= audio_actions_of(actions@) + silence_chunks(
                remaining as nat,
                size,
            ).map_values(label));
        }
        while remaining > 0
            invariant
                self.config == config,
                config.wf(),
                config.audio_chunk_size > 0,
                size == config.audio_chunk_size,
                label == (|data: Seq<u8>|
                    AudioOutputActionView::WriteAudio(
                        AudioOf {
                            audio: data,
                            sample_rate: config.sample_rate,
                            num_channels: config.channels,
                        },
                    )),
                before + all == audio_actions_of(actions@) + silence_chunks(
                    remaining as nat,
                    size,
                ).map_values(label),
            decreases remaining,
        {
            let ghost done = audio_actions_of(actions@);
            let ghost left = remaining as nat;
            let chunk_len: usize = if remaining <= self.config.audio_chunk_size {
                remaining
            } else {
                self.config.audio_chunk_size
            };
            let audio = bytes_from(zero_bytes(chunk_len));
            emit(
                actions,
                AudioOutputAction::WriteAudio(
                    AudioOf {
                        audio,
                        sample_rate: self.config.sample_rate,
                        num_channels: self.config.channels,
                    },
                ),
            );
            remaining = remaining - chunk_len;
            proof {
                let rest = silence_chunks(remaining as nat, size);
                assert(silence_chunks(left, size) =~= seq![zeros(chunk_len as nat)] + rest);
                assert(silence_chunks(left, size).map_values(label) =~= seq![
                    label(zeros(chunk_len as nat)),
                ] + rest.map_values(label));
                assert(audio_actions_of(actions@) =~= done + seq![label(zeros(chunk_len as nat))]);
                assert(done + (seq![label(zeros(chunk_len as nat))] + rest.map_values(label)) =~= (
                done + seq![label(zeros(chunk_len as nat))]) + rest.map_values(label));
            }
        }
        proof {
            assert(audio_actions_of(actions@) =~= before + all);
        }
    }

    /// Takes the next frame of the queue. At its end the trailing silence must
    /// be one that can be cut into chunks.
    pub fn on_frame(&mut self, envelope: &FrameEnvelope, now: u64) -> (r: Vec<AudioOutputAction>)
        requires
            envelope@.frame is End ==> old(self)@.config.wf(),
        ensures
            (final(self)@, audio_actions_of(r@)) == old(self)@.received(envelope@.frame, now),
    {
        let mut actions: Vec<AudioOutputAction> = Vec::new();
        match &envelope.frame {
            Frame::End => {
                self.end_silence(&mut actions);
                self.bot.bot_stopped_speaking(&mut actions);
                self.done = true;
                emit(&mut actions, AudioOutputAction::Exit);
            },
            Frame::TTSAudioRaw(f) => {
                self.bot.tts_audio_received = true;
                self.bot.bot_currently_speaking(&mut actions, now);
                self.play(&envelope.frame, &mut actions);
            },
            Frame::SpeechOutputAudioRaw(f) => {
                if is_silence(bytes_as_slice(&f.audio)) {
                    // The bot stops once the silence has lasted long enough.
                    if self.bot.speaking && time_since(now, self.bot.last_speech_time)
                        >= BOT_VAD_STOP {
                        self.bot.bot_stopped_speaking(&mut actions);
                    }
                } else {
                    self.bot.bot_currently_speaking(&mut actions, now);
                }
                self.play(&envelope.frame, &mut actions);
            },
            Frame::OutputAudioRaw(_) => {
                self.play(&envelope.frame, &mut actions);
            },
            Frame::TTSStopped { .. } => {
                if self.bot.tts_audio_received {
                    self.bot.bot_stopped_speaking(&mut actions);
                }
                emit(&mut actions, AudioOutputAction::Forward);
            },
            Frame::OutputTransportMessage { message } => {
                emit(&mut actions, AudioOutputAction::SendMessage(message.clone()));
                emit(&mut actions, AudioOutputAction::Forward);
            },
            Frame::OutputDTMF { button } => {
                emit(&mut actions, AudioOutputAction::WriteDtmf(*button));
                emit(&mut actions, AudioOutputAction::Forward);
            },
            _ => {
                emit(&mut actions, AudioOutputAction::WriteTransportFrame);
                emit(&mut actions, AudioOutputAction::Forward);
            },
        }
        proof {
            let (_, all) = old(self)@.received(envelope@.frame, now);
            assert(audio_actions_of(actions@) =~= all);
        }
        actions
    }

    /// Asks for the audio of a frame to be played.
    fn play(&self, frame: &Frame, actions: &mut Vec<AudioOutputAction>)
        ensures
            audio_actions_of(final(actions)@) == match audio_of(frame@) {
                Some(audio) => audio_actions_of(old(actions)@).push(
                    AudioOutputActionView::PlayAudio(audio),
                ),
                None => audio_actions_of(old(actions)@),
            },
    {
        if let Some(audio) = extract_audio(frame) {
            emit(actions, AudioOutputAction::PlayAudio(audio));
        }
    }

    /// What follows the playing of a frame's audio: the frame goes downstream
    /// where the write succeeded.
    pub fn on_played(&self, written: bool) -> (r: Vec<AudioOutputAction>)
        ensures
            audio_actions_of(r@) == if written {
                seq![AudioOutputActionView::Forward]
            } else {
                Seq::empty()
            },
    {
        let mut actions: Vec<AudioOutputAction> = Vec::new();
        if written {
            emit(&mut actions, AudioOutputAction::Forward);
        }
        proof {
            assert(audio_actions_of(actions@) =~= if written {
                seq![AudioOutputActionView::Forward]
            } else {
                Seq::empty()
            });
        }
        actions
    }
}

/// Whether the bot speaks after a run of actions; nothing if it was reported to
/// start while it spoke, or to stop while it did not.
pub open spec fn speaking_after(speaking: bool, actions: Seq<AudioOutputActionView>) -> Option<bool>
    decreases actions.len(),
{
    if actions.len() == 0 {
        Some(speaking)
    } else {
        match (speaking_after(speaking, actions.drop_last()), actions.last()) {
            (None, _) => None,
            (Some(s), AudioOutputActionView::Broadcast(f)) => if f is BotStartedSpeaking {
                if s {
                    None
                } else {
                    Some(true)
                }
            } else if f is BotStoppedSpeaking {
                if s {
                    Some(false)
                } else {
                    None
                }
            } else {
                Some(s)
            },
            (Some(s), _) => Some(s),
        }
    }
}

proof fn lemma_speaking_after_concat(
    speaking: bool,
    a: Seq<AudioOutputActionView>,
    b: Seq<AudioOutputActionView>,
)
    requires
        speaking_after(speaking, a) is Some,
    ensures
        speaking_after(speaking, a + b) == speaking_after(speaking_after(speaking, a)->0, b),
    decreases b.len(),
{
    if b.len() == 0 {
        assert(a + b =~= a);
    } else {
        assert((a + b).drop_last() =~= a + b.drop_last());
        lemma_speaking_after_concat(speaking, a, b.drop_last());
    }
}

proof fn lemma_quiet(speaking: bool, actions: Seq<AudioOutputActionView>)
    requires
        forall|i: int| 0 <= i < actions.len() ==> !((#[trigger] actions[i]) is Broadcast),
    ensures
        speaking_after(speaking, actions) == Some(speaking),
    decreases actions.len(),
{
    if actions.len() > 0 {
        lemma_quiet(speaking, actions.drop_last());
    }
}

/// The bot's speaking is reported faithfully: starts and stops alternate, and
/// at the end the reports agree with the state.
pub proof fn lemma_bot_speaking_alternates(m: AudioOutputModel, frame: FrameView, now: u64)
    ensures
        speaking_after(m.bot.speaking, m.received(frame, now).1) == Some(
            m.received(frame, now).0.bot.speaking,
        ),
        speaking_after(m.bot.speaking, m.bot.stopped().1) == Some(m.bot.stopped().0.speaking),
{
    let silence = if frame is End {
        m.config.trailing_silence()
    } else {
        Seq::empty()
    };
    let (bot, detected) = m.detected(frame, now);
    let handled = AudioOutputModel::handled(frame);
    lemma_quiet(m.bot.speaking, silence);
    lemma_quiet(bot.speaking, handled);
    reveal_with_fuel(speaking_after, 3);
    let start = AudioOutputActionView::Broadcast(FrameView::BotStartedSpeaking);
    let stop = AudioOutputActionView::Broadcast(FrameView::BotStoppedSpeaking);
    let tick = AudioOutputActionView::SendDownstream(FrameView::BotSpeaking);
    assert(seq![start].drop_last() =~= Seq::empty());
    assert(seq![stop].drop_last() =~= Seq::empty());
    assert(seq![start].push(tick).drop_last() =~= seq![start]);
    assert(Seq::<AudioOutputActionView>::empty().push(tick).drop_last() =~= Seq::empty());
    assert(speaking_after(m.bot.speaking, detected) == Some(bot.speaking));
    lemma_speaking_after_concat(m.bot.speaking, silence, detected);
    lemma_speaking_after_concat(m.bot.speaking, silence + detected, handled);
}

} // verus!
