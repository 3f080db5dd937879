//! What holds of the queues of an output over runs of frames.
use vstd::prelude::*;

use crate::frames::{EnvelopeView, FrameView};
use crate::json::Json;
use crate::runs::{
    gathered, lemma_gathered_concat, lemma_gathered_few, lemma_gathered_nothing,
};
use crate::transport::audio_output::{AudioOutputActionView, AudioOutputModel};
use crate::transport::clock::{
    due_count, due_time, goes_before, in_order, lemma_delivery_in_order,
    lemma_merging_keeps_order, merged,
};
use crate::transport::pcm::{pieces, samples_of, silence_chunks, silent, zeros};

verus! {

/// A byte of audio with the sample rate and the channels that it is played with.
pub struct PlayedByte {
    pub byte: u8,
    pub sample_rate: u32,
    pub num_channels: u16,
}

/// Audio byte by byte.
pub open spec fn bytes_played(audio: Seq<u8>, sample_rate: u32, num_channels: u16) -> Seq<
    PlayedByte,
> {
    audio.map_values(|b: u8| PlayedByte { byte: b, sample_rate, num_channels })
}

/// The audio that an action plays.
pub open spec fn audio_played(a: AudioOutputActionView) -> Seq<PlayedByte> {
    match a {
        AudioOutputActionView::PlayAudio(x) => bytes_played(
            x.audio,
            x.sample_rate,
            x.num_channels,
        ),
        _ => Seq::empty(),
    }
}

/// The audio that an action writes as silence.
pub open spec fn silence_written(a: AudioOutputActionView) -> Seq<PlayedByte> {
    match a {
        AudioOutputActionView::WriteAudio(x) => bytes_played(
            x.audio,
            x.sample_rate,
            x.num_channels,
        ),
        _ => Seq::empty(),
    }
}

/// A frame that arrives in the audio queue, and when.
pub struct QueuedFrame {
    pub frame: FrameView,
    pub now: u64,
}

/// The audio that a frame brings.
pub open spec fn audio_brought(f: QueuedFrame) -> Seq<PlayedByte> {
    match f.frame {
        FrameView::OutputAudioRaw(x) => bytes_played(x.audio, x.sample_rate, x.num_channels),
        FrameView::TTSAudioRaw(x) => bytes_played(x.audio, x.sample_rate, x.num_channels),
        FrameView::SpeechOutputAudioRaw(x) => bytes_played(
            x.audio,
            x.sample_rate,
            x.num_channels,
        ),
        _ => Seq::empty(),
    }
}

/// What an action does with a frame that is no audio.
pub enum Handling {
    Message(Json),
    Tone(u8),
    Transport,
    Forwarded,
    Ended,
}

/// What an action does with the frame at hand.
pub open spec fn handling(a: AudioOutputActionView) -> Seq<Handling> {
    match a {
        AudioOutputActionView::SendMessage(m) => seq![Handling::Message(m)],
        AudioOutputActionView::WriteDtmf(b) => seq![Handling::Tone(b)],
        AudioOutputActionView::WriteTransportFrame => seq![Handling::Transport],
        AudioOutputActionView::Forward => seq![Handling::Forwarded],
        AudioOutputActionView::Exit => seq![Handling::Ended],
        _ => Seq::empty(),
    }
}

/// What is to be done with a frame: audio goes on once it was played, which is
/// told apart; the end goes nowhere; any other frame goes to where it belongs, and
/// then on.
pub open spec fn handling_due(f: QueuedFrame) -> Seq<Handling> {
    match f.frame {
        FrameView::End => seq![Handling::Ended],
        FrameView::OutputAudioRaw(_)
        | FrameView::TTSAudioRaw(_)
        | FrameView::SpeechOutputAudioRaw(_) => Seq::empty(),
        FrameView::TTSStopped { .. } => seq![Handling::Forwarded],
        FrameView::OutputTransportMessage { message } => seq![
            Handling::Message(message),
            Handling::Forwarded,
        ],
        FrameView::OutputDTMF { button } => seq![Handling::Tone(button), Handling::Forwarded],
        _ => seq![Handling::Transport, Handling::Forwarded],
    }
}

impl AudioOutputModel {
    /// The queue after a run of frames, and all that they call for.
    pub open spec fn all_received(self, frames: Seq<QueuedFrame>) -> (
        AudioOutputModel,
        Seq<AudioOutputActionView>,
    )
        decreases frames.len(),
    {
        if frames.len() == 0 {
            (self, Seq::empty())
        } else {
            let (m, actions) = self.all_received(frames.drop_last());
            let (m, more) = m.received(frames.last().frame, frames.last().now);
            (m, actions + more)
        }
    }
}

proof fn lemma_frame_is_handled(m: AudioOutputModel, f: QueuedFrame)
    ensures
        gathered(
            m.received(f.frame, f.now).1,
            |a: AudioOutputActionView| audio_played(a),
        ) == audio_brought(f),
        gathered(
            m.received(f.frame, f.now).1,
            |a: AudioOutputActionView| handling(a),
        ) == handling_due(f),
{
    let played = |a: AudioOutputActionView| audio_played(a);
    let handled = |a: AudioOutputActionView| handling(a);
    let silence = if f.frame is End {
        m.config.trailing_silence()
    } else {
        Seq::empty()
    };
    let detected = m.detected(f.frame, f.now).1;
    let rest = AudioOutputModel::handled(f.frame);
    assert forall|i: int| 0 <= i < silence.len() implies (#[trigger] played(silence[i])).len()
        == 0 by {}
    assert forall|i: int| 0 <= i < silence.len() implies (#[trigger] handled(silence[i])).len()
        == 0 by {}
    lemma_gathered_nothing(silence, played);
    lemma_gathered_nothing(silence, handled);
    assert(detected.len() <= 2);
    lemma_gathered_nothing(detected, played);
    lemma_gathered_nothing(detected, handled);
    lemma_gathered_few(rest, played);
    lemma_gathered_few(rest, handled);
    lemma_gathered_concat(silence, detected, played);
    lemma_gathered_concat(silence, detected, handled);
    lemma_gathered_concat(silence + detected, rest, played);
    lemma_gathered_concat(silence + detected, rest, handled);
    assert(gathered(m.received(f.frame, f.now).1, played) =~= audio_brought(f));
    assert(gathered(m.received(f.frame, f.now).1, handled) =~= handling_due(f));
}

/// Over any run of frames all audio is played, byte for byte, in order and as it
/// came, and nothing else is; and every other frame is handed to where it belongs
/// and goes on, once.
pub proof fn lemma_audio_is_played(m: AudioOutputModel, frames: Seq<QueuedFrame>)
    ensures
        gathered(
            m.all_received(frames).1,
            |a: AudioOutputActionView| audio_played(a),
        ) == gathered(frames, |f: QueuedFrame| audio_brought(f)),
        gathered(m.all_received(frames).1, |a: AudioOutputActionView| handling(a)) == gathered(
            frames,
            |f: QueuedFrame| handling_due(f),
        ),
        m.all_received(frames).0.config == m.config,
    decreases frames.len(),
{
    if frames.len() > 0 {
        lemma_audio_is_played(m, frames.drop_last());
        let (mid, actions) = m.all_received(frames.drop_last());
        let f = frames.last();
        lemma_frame_is_handled(mid, f);
        let more = mid.received(f.frame, f.now).1;
        lemma_gathered_concat(actions, more, |a: AudioOutputActionView| audio_played(a));
        lemma_gathered_concat(actions, more, |a: AudioOutputActionView| handling(a));
    }
}

proof fn lemma_silence_is_zero(total: nat, size: nat, rate: u32, channels: u16)
    requires
        size > 0,
    ensures
        gathered(
            silence_chunks(total, size).map_values(
                |data: Seq<u8>|
                    AudioOutputActionView::WriteAudio(
                        crate::frames::AudioOf {
                            audio: data,
                            sample_rate: rate,
                            num_channels: channels,
                        },
                    ),
            ),
            |a: AudioOutputActionView| silence_written(a),
        ) == Seq::new(
            total,
            |i: int| PlayedByte { byte: 0, sample_rate: rate, num_channels: channels },
        ),
    decreases total,
{
    let write = |data: Seq<u8>|
        AudioOutputActionView::WriteAudio(
            crate::frames::AudioOf { audio: data, sample_rate: rate, num_channels: channels },
        );
    let f = |a: AudioOutputActionView| silence_written(a);
    let all = silence_chunks(total, size).map_values(write);
    let zero = PlayedByte { byte: 0, sample_rate: rate, num_channels: channels };
    let due = Seq::new(total, |i: int| zero);
    if total == 0 {
        assert(gathered(all, f) =~= due);
    } else if total <= size {
        assert(all =~= seq![write(zeros(total))]);
        lemma_gathered_few(all, f);
        assert(gathered(all, f) =~= due);
    } else {
        let rest = silence_chunks((total - size) as nat, size).map_values(write);
        let first = seq![write(zeros(size))];
        assert(all =~= first + rest);
        lemma_gathered_few(first, f);
        lemma_gathered_concat(first, rest, f);
        lemma_silence_is_zero((total - size) as nat, size, rate, channels);
        assert(gathered(all, f) =~= due);
    }
}

/// At the end silence is written: two zero bytes for each sample of each channel
/// over the seconds that are set, at the rate of the queue. No other frame writes
/// silence.
pub proof fn lemma_end_is_silent(m: AudioOutputModel, frame: FrameView, now: u64)
    requires
        m.config.audio_chunk_size > 0,
    ensures
        gathered(
            m.received(frame, now).1,
            |a: AudioOutputActionView| silence_written(a),
        ) == Seq::new(
            if frame is End {
                (m.config.sample_rate as int * m.config.channels as int * 2
                    * m.config.end_silence_secs as int) as nat
            } else {
                0
            },
            |i: int|
                PlayedByte {
                    byte: 0,
                    sample_rate: m.config.sample_rate,
                    num_channels: m.config.channels,
                },
        ),
        m.received(frame, now).0.done == (m.done || frame is End),
{
    let f = |a: AudioOutputActionView| silence_written(a);
    let detected = m.detected(frame, now).1;
    let rest = AudioOutputModel::handled(frame);
    let c = m.config;
    let silence = if frame is End {
        c.trailing_silence()
    } else {
        Seq::empty()
    };
    if frame is End {
        assert(c.sample_rate as int * c.channels as int * 2 * c.end_silence_secs as int >= 0)
            by (nonlinear_arith)
            requires
                c.sample_rate >= 0,
                c.channels >= 0,
                c.end_silence_secs >= 0,
        ;
        lemma_silence_is_zero(
            c.silence_bytes() as nat,
            c.audio_chunk_size as nat,
            c.sample_rate,
            c.channels,
        );
    }
    assert(detected.len() <= 2);
    lemma_gathered_nothing(detected, f);
    assert(rest.len() <= 2);
    lemma_gathered_nothing(rest, f);
    lemma_gathered_concat(silence, detected, f);
    lemma_gathered_concat(silence + detected, rest, f);
    let due = gathered(silence, f);
    assert(gathered(m.received(frame, now).1, f) =~= due);
    if !(frame is End) {
        assert(due =~= Seq::new(
            0nat,
            |i: int|
                PlayedByte { byte: 0, sample_rate: c.sample_rate, num_channels: c.channels },
        ));
    }
}

/// Whether a frame lets the bot be heard: synthesized speech, or speech audio
/// with a sample above the threshold of 20.
pub open spec fn lets_hear(frame: FrameView) -> bool {
    match frame {
        FrameView::TTSAudioRaw(_) => true,
        FrameView::SpeechOutputAudioRaw(f) => exists|i: int|
            0 <= i < samples_of(f.audio).len() && !(-20 <= #[trigger] samples_of(f.audio)[i] <= 20),
        _ => false,
    }
}

/// The bot speaks from the first frame that lets it be heard. It stops with the
/// end, with the end of synthesis if synthesized speech was heard, and with speech
/// audio that is silent 350 milliseconds after it was last heard. While it is
/// heard this is told every 200 milliseconds.
pub proof fn lemma_bot_is_heard(m: AudioOutputModel, frame: FrameView, now: u64)
    ensures
        ({
            let (after, actions) = m.received(frame, now);
            let b = m.bot;
            let gone = now >= b.last_speech_time + 350_000_000;
            let stops = frame is End || (frame is TTSStopped && b.tts_audio_received) || (
            frame is SpeechOutputAudioRaw && !lets_hear(frame) && gone);
            &&& lets_hear(frame) ==> {
                &&& after.bot.speaking
                &&& after.bot.last_speech_time == now
                &&& actions.contains(
                    AudioOutputActionView::Broadcast(FrameView::BotStartedSpeaking),
                ) == !b.speaking
                &&& actions.contains(
                    AudioOutputActionView::SendDownstream(FrameView::BotSpeaking),
                ) == (now >= b.last_speaking_frame_time + 200_000_000)
                &&& after.bot.last_speaking_frame_time == if now >= b.last_speaking_frame_time
                    + 200_000_000 {
                    now
                } else {
                    b.last_speaking_frame_time
                }
                &&& after.bot.tts_audio_received == (b.tts_audio_received || frame is TTSAudioRaw)
            }
            &&& !lets_hear(frame) ==> {
                &&& !actions.contains(
                    AudioOutputActionView::Broadcast(FrameView::BotStartedSpeaking),
                )
                &&& !actions.contains(
                    AudioOutputActionView::SendDownstream(FrameView::BotSpeaking),
                )
                &&& actions.contains(
                    AudioOutputActionView::Broadcast(FrameView::BotStoppedSpeaking),
                ) == (stops && b.speaking)
                &&& after.bot.speaking == (b.speaking && !stops)
                &&& after.bot.last_speech_time == b.last_speech_time
                &&& after.bot.tts_audio_received == (b.tts_audio_received && !(stops && b.speaking))
            }
        }),
{
    let (after, actions) = m.received(frame, now);
    if let FrameView::SpeechOutputAudioRaw(f) = frame {
        lemma_silence_is_quiet(f.audio);
    }
    let silence = if frame is End {
        m.config.trailing_silence()
    } else {
        Seq::empty()
    };
    let n = silence.len() as int;
    let detected = m.detected(frame, now).1;
    let rest = AudioOutputModel::handled(frame);
    assert forall|a: AudioOutputActionView| !(a is WriteAudio) && (a is Broadcast
        || a is SendDownstream) implies actions.contains(a) == detected.contains(a) by {
        if detected.contains(a) {
            let i = detected.index_of(a);
            assert(actions[n + i] == a);
        }
        if actions.contains(a) {
            let i = actions.index_of(a);
            if i < n {
                assert(actions[i] == silence[i]);
            } else if i < n + detected.len() {
                assert(actions[i] == detected[i - n]);
            } else {
                assert(actions[i] == rest[i - n - detected.len()]);
            }
        }
    }
    let start = AudioOutputActionView::Broadcast(FrameView::BotStartedSpeaking);
    let stop = AudioOutputActionView::Broadcast(FrameView::BotStoppedSpeaking);
    let tick = AudioOutputActionView::SendDownstream(FrameView::BotSpeaking);
    if detected.len() > 0 {
        assert(detected.contains(detected[0]));
    }
    if detected.len() > 1 {
        assert(detected.contains(detected[1]));
    }
}

/// Audio is silent exactly if none of its samples is beyond 20 either way.
pub proof fn lemma_silence_is_quiet(audio: Seq<u8>)
    ensures
        silent(audio) <==> forall|i: int|
            0 <= i < samples_of(audio).len() ==> -20 <= #[trigger] samples_of(audio)[i] <= 20,
{
    if silent(audio) {
        assert forall|i: int| 0 <= i < samples_of(audio).len() implies -20 <= #[trigger] samples_of(
            audio,
        )[i] <= 20 by {
            assert(crate::transport::pcm::amplitude(audio[2 * i], audio[2 * i + 1]) <= 20);
        }
    }
    if forall|i: int|
        0 <= i < samples_of(audio).len() ==> -20 <= #[trigger] samples_of(audio)[i] <= 20 {
        assert forall|i: int| 0 <= i < audio.len() / 2 implies
            #[trigger] crate::transport::pcm::amplitude(audio[2 * i], audio[2 * i + 1])
            <= 20 by {
            assert(-20 <= samples_of(audio)[i] <= 20);
        }
    }
}

/// Samples are little-endian and signed: the first of two bytes counts one, the
/// second 256, and from 32768 on a sample is negative.
pub proof fn lemma_samples_are_little_endian(audio: Seq<u8>, i: int)
    requires
        0 <= i < audio.len() / 2,
    ensures
        samples_of(audio).len() == audio.len() / 2,
        ({
            let raw = audio[2 * i] + 256 * audio[2 * i + 1];
            let sample = samples_of(audio)[i];
            &&& raw < 32768 ==> sample == raw
            &&& raw >= 32768 ==> sample == raw - 65536
        }),
{
}

/// Silence without a frame: the bot stops where it spoke, and that is told. The
/// wait for a frame is 350 milliseconds, three seconds with a mixer.
pub proof fn lemma_silence_stops_the_bot(m: AudioOutputModel)
    ensures
        !m.bot.stopped().0.speaking,
        m.bot.stopped().1 == if m.bot.speaking {
            seq![AudioOutputActionView::Broadcast(FrameView::BotStoppedSpeaking)]
        } else {
            Seq::empty()
        },
        m.patience() == if m.config.has_mixer {
            3_000_000_000u64
        } else {
            350_000_000
        },
{
}

/// All pieces but the last have the full size.
pub proof fn lemma_pieces_are_full(data: Seq<u8>, size: nat)
    requires
        size > 0,
    ensures
        forall|i: int|
            0 <= i < pieces(data, size).len() - 1 ==> (#[trigger] pieces(data, size)[i]).len()
                == size,
        gathered(pieces(data, size), |p: Seq<u8>| p) == data,
        data.len() > 0 ==> pieces(data, size).len() > 0 && 0 < pieces(data, size).last().len()
            <= size,
    decreases data.len(),
{
    let all = pieces(data, size);
    let f = |p: Seq<u8>| p;
    lemma_gathered_few(all, f);
    if data.len() == 0 {
        assert(gathered(all, f) =~= data);
    } else if data.len() > size {
        let rest = data.skip(size as int);
        lemma_pieces_are_full(rest, size);
        let first = seq![data.take(size as int)];
        assert(all =~= first + pieces(rest, size));
        lemma_gathered_few(first, f);
        lemma_gathered_concat(first, pieces(rest, size), f);
        assert(gathered(all, f) =~= data);
        assert forall|i: int| 0 <= i < all.len() - 1 implies (#[trigger] all[i]).len() == size by {
            if i > 0 {
                assert(all[i] == pieces(rest, size)[i - 1]);
            }
        }
    }
}

/// When a frame is to be delivered: at its time, or at once if it has none.
pub open spec fn time_of(e: EnvelopeView) -> u64 {
    if e.pts is Some {
        e.pts->0
    } else {
        0
    }
}

/// Whether frames stand by their times, and those of one time by their ids.
pub open spec fn by_time(queue: Seq<EnvelopeView>) -> bool {
    forall|i: int, j: int|
        0 <= i < j < queue.len() ==> time_of(#[trigger] queue[i]) < time_of(#[trigger] queue[j])
            || (time_of(queue[i]) == time_of(queue[j]) && queue[i].id <= queue[j].id)
}

/// A clock queue after frames have arrived, first to last.
pub open spec fn arrived(frames: Seq<EnvelopeView>) -> Seq<EnvelopeView>
    decreases frames.len(),
{
    if frames.len() == 0 {
        Seq::empty()
    } else {
        merged(arrived(frames.drop_last()), frames.last())
    }
}

/// Whatever the order in which frames arrive, the queue holds all of them, each
/// once, by their times and ids.
pub proof fn lemma_clock_queue_is_by_time(frames: Seq<EnvelopeView>)
    ensures
        by_time(arrived(frames)),
        arrived(frames).to_multiset() == frames.to_multiset(),
    decreases frames.len(),
{
    broadcast use vstd::seq_lib::group_to_multiset_ensures;

    if frames.len() > 0 {
        let front = frames.drop_last();
        lemma_clock_queue_is_by_time(front);
        let queue = arrived(front);
        assert(in_order(queue)) by {
            assert forall|i: int, j: int| 0 <= i < j < queue.len() implies !goes_before(
                queue[j],
                queue[i],
            ) by {
                assert(time_of(queue[i]) <= time_of(queue[j]));
            }
        }
        lemma_merging_keeps_order(queue, frames.last());
        let all = merged(queue, frames.last());
        assert forall|i: int, j: int| 0 <= i < j < all.len() implies time_of(#[trigger] all[i])
            < time_of(#[trigger] all[j]) || (time_of(all[i]) == time_of(all[j]) && all[i].id
            <= all[j].id) by {
            assert(!goes_before(all[j], all[i]));
        }
        assert(front.push(frames.last()) =~= frames);
    } else {
        assert(arrived(frames) =~= frames);
    }
}

/// Exactly the frames whose time has come are delivered, and they stand at the
/// head of the queue.
pub proof fn lemma_due_frames_are_delivered(queue: Seq<EnvelopeView>, elapsed: u64, i: int)
    requires
        by_time(queue),
        0 <= i < queue.len(),
    ensures
        due_count(queue, elapsed) <= queue.len(),
        i < due_count(queue, elapsed) <==> time_of(queue[i]) <= elapsed,
{
    assert(in_order(queue)) by {
        assert forall|a: int, b: int| 0 <= a < b < queue.len() implies !goes_before(
            queue[b],
            queue[a],
        ) by {
            assert(time_of(queue[a]) <= time_of(queue[b]));
        }
    }
    lemma_delivery_in_order(queue, elapsed);
    assert(due_time(queue[i]) == time_of(queue[i]));
}

} // verus!
