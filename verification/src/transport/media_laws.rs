//! What holds of inputs, players, images and the pace of video.
use vstd::arithmetic::div_mod::lemma_fundamental_div_mod_converse;
use vstd::prelude::*;

use crate::frames::{AudioOf, Direction, FrameView, ImageOf};
use crate::runs::{gathered, lemma_gathered_concat, lemma_gathered_few, lemma_gathered_nothing};
use crate::transport::audio_player::{ActivePlayback, PlayerModel, PlayerStep};
use crate::transport::image::{pixel_bytes, resized, source_index};
use crate::transport::input::{InputAction, InputModel};
use crate::transport::local::{
    chunk_of_20ms, frames_of_data, framed, of_inner, AudioFormat, AudioInputSource,
    LocalInputAction, LocalInputModel,
};
use crate::transport::mic_input::{mic_inner, MicAction, MicModel};
use crate::transport::pcm::{lemma_samples_round_trip, pcm_of, pieces, samples_of};
use crate::transport::queue_laws::lemma_pieces_are_full;
use crate::transport::video::PacerModel;
use crate::transport::wav::{wav_header_of, wav_samples_of};

verus! {

// ---------------------------------------------------------------------------
// Inputs
// ---------------------------------------------------------------------------

/// Whether an audio queue runs after actions, if none of them is out of place:
/// none runs a queue beside another, or closes one that does not run.
pub open spec fn queue_after(runs: bool, actions: Seq<InputAction>) -> Option<bool>
    decreases actions.len(),
{
    if actions.len() == 0 {
        Some(runs)
    } else {
        match (queue_after(runs, actions.drop_last()), actions.last()) {
            (Some(false), InputAction::SpawnAudio { .. }) => Some(true),
            (Some(true), InputAction::SpawnAudio { .. }) => None,
            (Some(true), InputAction::CloseAudio { .. }) => Some(false),
            (Some(false), InputAction::CloseAudio { .. }) => None,
            (r, _) => r,
        }
    }
}

proof fn lemma_queue_after_few(runs: bool, s: Seq<InputAction>)
    ensures
        s.len() == 0 ==> queue_after(runs, s) == Some(runs),
        s.len() == 1 ==> queue_after(runs, s) == queue_after(runs, seq![s[0]]),
{
    if s.len() == 1 {
        assert(s =~= seq![s[0]]);
    }
}

/// An input has at most one audio queue, and its record of it is right: whatever
/// frame comes, a queue is run only where none runs, and closed only where one
/// does. The same holds where the transport gets ready and has none.
pub proof fn lemma_one_input_queue(m: InputModel, frame: FrameView, direction: Direction)
    ensures
        queue_after(m.audio_open, m.processed(frame, direction).1) == Some(
            m.processed(frame, direction).0.audio_open,
        ),
        !m.audio_open ==> queue_after(false, m.spawned().1) == Some(m.spawned().0.audio_open),
        m.spawned().0.audio_open == (m.audio_open || (m.params.audio_in_enabled && m.started)),
{
    reveal_with_fuel(queue_after, 4);
    let actions = m.processed(frame, direction).1;
    assert(actions.len() <= 3);
    let spawned = m.spawned().1;
    assert(spawned.len() <= 1);
}

/// A start sets the rate, the transport's own before the frame's, and starts a
/// filter that still waits, at that rate. An end and a cancellation stop the
/// filter that was started. Requests to the filter reach it where it was started.
pub proof fn lemma_filter_is_started_and_stopped(
    m: InputModel,
    frame: FrameView,
    direction: Direction,
)
    ensures
        ({
            let (after, actions) = m.processed(frame, direction);
            match frame {
                FrameView::Start(f) => {
                    &&& after.started
                    &&& m.params.audio_in_sample_rate matches Some(r) ==> after.sample_rate == r
                    &&& m.params.audio_in_sample_rate is None ==> after.sample_rate
                        == f.audio_in_sample_rate
                    &&& actions.contains(InputAction::StartFilter(after.sample_rate))
                        == m.filter_waiting
                    &&& after.filter == (m.filter || m.filter_waiting) && !after.filter_waiting
                    &&& after.audio_open == m.audio_open
                },
                FrameView::End | FrameView::Cancel => {
                    &&& actions.contains(InputAction::StopFilter) == m.filter
                    &&& actions.contains(InputAction::CloseAudio { wait_secs: 1 })
                        == m.audio_open
                    &&& !after.audio_open
                    &&& after.paused == m.paused
                },
                FrameView::Stop => {
                    &&& after.paused
                    &&& actions.contains(InputAction::CloseAudio { wait_secs: 1 })
                        == m.audio_open
                    &&& actions.contains(
                        InputAction::SpawnAudio { passthrough: m.params.audio_in_passthrough },
                    ) == (m.params.audio_in_enabled && m.started)
                },
                FrameView::FilterUpdateSettings | FrameView::FilterEnable => {
                    &&& actions.contains(InputAction::ControlFilter) == m.filter
                    &&& after == m
                },
                _ => after == m && actions == seq![InputAction::Forward(direction)],
            }
        }),
{
    let (after, actions) = m.processed(frame, direction);
    assert(actions.len() <= 3);
    if actions.len() > 0 {
        assert(actions.contains(actions[0]));
    }
    if actions.len() > 1 {
        assert(actions.contains(actions[1]));
    }
    if actions.len() > 2 {
        assert(actions.contains(actions[2]));
    }
}

/// Whether an action feeds a source into the audio queue.
pub open spec fn feeding(a: LocalInputAction) -> Seq<AudioInputSource> {
    match a {
        LocalInputAction::Feed(source, _) => seq![source],
        _ => Seq::empty(),
    }
}

impl LocalInputModel {
    /// The transport after a run of frames, and all that they call for.
    pub open spec fn all_processed(self, frames: Seq<FrameView>, direction: Direction) -> (
        LocalInputModel,
        Seq<LocalInputAction>,
    )
        decreases frames.len(),
    {
        if frames.len() == 0 {
            (self, Seq::empty())
        } else {
            let (m, actions) = self.all_processed(frames.drop_last(), direction);
            let (m, more) = m.processed(frames.last(), direction);
            (m, actions + more)
        }
    }
}

proof fn lemma_inner_feeds_nothing(actions: Seq<InputAction>)
    ensures
        gathered(of_inner(actions), |a: LocalInputAction| feeding(a)).len() == 0,
{
    lemma_gathered_nothing(of_inner(actions), |a: LocalInputAction| feeding(a));
}

proof fn lemma_feeding_of_a_frame(m: LocalInputModel, frame: FrameView, direction: Direction)
    ensures
        ({
            let (after, actions) = m.processed(frame, direction);
            let fed = gathered(actions, |a: LocalInputAction| feeding(a));
            let can = frame is Start && m.source is Some && (m.inner.audio_open
                || m.inner.params.audio_in_enabled);
            &&& fed == if can {
                seq![m.source->0]
            } else {
                Seq::empty()
            }
            &&& after.source == if frame is Start {
                None
            } else {
                m.source
            }
            &&& can ==> (actions.last() matches LocalInputAction::Feed(_, plan) && plan.format
                == m.format && plan.num_channels == m.num_channels && plan.sample_rate
                == after.inner.sample_rate && plan.realtime == (m.pacing is RealTime))
            &&& after.feeding == if frame is End || frame is Cancel {
                false
            } else {
                m.feeding || can
            }
            &&& frame is End || frame is Cancel ==> actions.contains(LocalInputAction::CancelFeed)
                == m.feeding
        }),
{
    let f = |a: LocalInputAction| feeding(a);
    let (inner, first) = m.inner.processed(frame, direction);
    let (after, actions) = m.processed(frame, direction);
    lemma_inner_feeds_nothing(first);
    match frame {
        FrameView::Start(_) => {
            let (inner, second) = inner.spawned();
            lemma_inner_feeds_nothing(second);
            let (_, third) = LocalInputModel { inner, ..m }.fed();
            lemma_gathered_few(third, f);
            lemma_gathered_concat(of_inner(first), of_inner(second), f);
            lemma_gathered_concat(of_inner(first) + of_inner(second), third, f);
            let fed = gathered(actions, f);
            if third.len() == 1 {
                assert(fed =~= seq![m.source->0]);
                assert(actions.last() == third[0]);
            } else {
                assert(fed =~= Seq::empty());
            }
        },
        FrameView::End | FrameView::Cancel => {
            let rest = if m.feeding {
                seq![LocalInputAction::CancelFeed]
            } else {
                Seq::empty()
            };
            lemma_gathered_few(rest, f);
            lemma_gathered_concat(of_inner(first), rest, f);
            assert(gathered(actions, f) =~= Seq::empty());
            if m.feeding {
                assert(actions[of_inner(first).len() as int] == LocalInputAction::CancelFeed);
            }
        },
        _ => {
            assert(gathered(actions, f) =~= Seq::empty());
        },
    }
}

/// Over any run of frames the source is fed at most once: with the first start, if
/// there is an audio queue for it.
pub proof fn lemma_source_is_fed_once(
    m: LocalInputModel,
    frames: Seq<FrameView>,
    direction: Direction,
)
    ensures
        ({
            let (after, actions) = m.all_processed(frames, direction);
            let fed = gathered(actions, |a: LocalInputAction| feeding(a));
            &&& fed.len() <= 1
            &&& fed.len() == 1 ==> m.source == Some(fed[0]) && after.source is None
            &&& after.source is Some ==> after.source == m.source && fed.len() == 0
            &&& m.source is None ==> fed.len() == 0
        }),
    decreases frames.len(),
{
    if frames.len() > 0 {
        lemma_source_is_fed_once(m, frames.drop_last(), direction);
        let (mid, actions) = m.all_processed(frames.drop_last(), direction);
        lemma_feeding_of_a_frame(mid, frames.last(), direction);
        let more = mid.processed(frames.last(), direction).1;
        lemma_gathered_concat(actions, more, |a: LocalInputAction| feeding(a));
    }
}

/// With a start the source is fed, as it is to be read: in its format, at the rate
/// of the transport, with its channels and at its pace. An end and a cancellation
/// cancel what is being fed.
pub proof fn lemma_source_is_fed_as_it_is(
    m: LocalInputModel,
    frame: FrameView,
    direction: Direction,
)
    ensures
        ({
            let (after, actions) = m.processed(frame, direction);
            let can = frame is Start && m.source is Some && (m.inner.audio_open
                || m.inner.params.audio_in_enabled);
            &&& gathered(actions, |a: LocalInputAction| feeding(a)).len() == if can {
                1nat
            } else {
                0
            }
            &&& can ==> (actions.last() matches LocalInputAction::Feed(source, plan) && m.source
                == Some(source) && plan.format == m.format && plan.num_channels == m.num_channels
                && plan.sample_rate == after.inner.sample_rate && plan.realtime == (
            m.pacing is RealTime))
            &&& frame is End || frame is Cancel ==> actions.contains(LocalInputAction::CancelFeed)
                == m.feeding && !after.feeding
        }),
{
    lemma_feeding_of_a_frame(m, frame, direction);
    let (inner, first) = m.inner.processed(frame, direction);
    if let FrameView::Start(_) = frame {
        let (inner, second) = inner.spawned();
        let (_, third) = LocalInputModel { inner, ..m }.fed();
        if third.len() == 1 {
            assert(m.processed(frame, direction).1.last() == third[0]);
        }
    }
}

/// The audio of frames, one behind the other.
pub open spec fn audio_in(frames: Seq<AudioOf<Seq<u8>>>) -> Seq<u8> {
    gathered(frames, |f: AudioOf<Seq<u8>>| f.audio)
}

proof fn lemma_frames_hold_their_pieces(parts: Seq<Seq<u8>>, rate: u32, channels: u16)
    ensures
        audio_in(framed(parts, rate, channels)) == gathered(parts, |p: Seq<u8>| p),
    decreases parts.len(),
{
    if parts.len() > 0 {
        let front = parts.drop_last();
        lemma_frames_hold_their_pieces(front, rate, channels);
        assert(framed(parts, rate, channels).drop_last() =~= framed(front, rate, channels));
    }
}

/// Whether frames hold audio, all of it and in order, in pieces of 20
/// milliseconds but for the last, which may be shorter.
pub open spec fn cut_into(
    frames: Seq<AudioOf<Seq<u8>>>,
    audio: Seq<u8>,
    rate: u32,
    channels: u16,
) -> bool {
    &&& audio_in(frames) == audio
    &&& forall|i: int|
        0 <= i < frames.len() ==> (#[trigger] frames[i]).sample_rate == rate
            && frames[i].num_channels == channels && 0 < frames[i].audio.len() <= 2 * (rate as int
            / 50 * channels as int)
    &&& forall|i: int|
        0 <= i < frames.len() - 1 ==> (#[trigger] frames[i]).audio.len() == 2 * (rate as int / 50
            * channels as int)
}

proof fn lemma_pieces_are_cut(data: Seq<u8>, rate: u32, channels: u16)
    requires
        rate >= 50,
        channels > 0,
    ensures
        cut_into(
            framed(pieces(data, chunk_of_20ms(rate, channels) as nat), rate, channels),
            data,
            rate,
            channels,
        ),
{
    let (a, b) = (rate as int / 50, channels as int);
    assert(a * b > 0 && a * b * 2 == 2 * (a * b)) by (nonlinear_arith)
        requires
            a > 0,
            b > 0,
    ;
    let size = chunk_of_20ms(rate, channels) as nat;
    lemma_pieces_are_full(data, size);
    let parts = pieces(data, size);
    lemma_frames_hold_their_pieces(parts, rate, channels);
    let frames = framed(parts, rate, channels);
    assert forall|i: int| 0 <= i < frames.len() implies (#[trigger] frames[i]).sample_rate == rate
        && frames[i].num_channels == channels && 0 < frames[i].audio.len() <= 2 * (a * b) by {
        if i < parts.len() - 1 {
            assert(parts[i].len() == size);
        } else {
            assert(data.len() > 0);
        }
    }
    assert forall|i: int| 0 <= i < frames.len() - 1 implies (#[trigger] frames[i]).audio.len()
        == 2 * (a * b) by {
        assert(parts[i].len() == size);
    }
}

/// Raw audio is cut into frames as it is, at the rate that is given. Audio of a
/// WAV file is the file's samples, at the file's rate, if they are 16-bit
/// integers; of other data there are no frames.
pub proof fn lemma_data_is_cut_into_frames(
    data: Seq<u8>,
    sample_rate: u32,
    num_channels: u16,
)
    requires
        sample_rate >= 50,
        num_channels > 0,
        wav_header_of(data) matches Some(h) ==> h.sample_rate >= 50 && h.channels > 0,
    ensures
        cut_into(
            frames_of_data(data, AudioFormat::RawPcm, sample_rate, num_channels),
            data,
            sample_rate,
            num_channels,
        ),
        ({
            let frames = frames_of_data(data, AudioFormat::Wav, sample_rate, num_channels);
            match (wav_header_of(data), wav_samples_of(data)) {
                (Some(h), Some(samples)) if h.is_int && h.bits_per_sample == 16 => {
                    &&& cut_into(frames, audio_in(frames), h.sample_rate, h.channels)
                    &&& samples_of(audio_in(frames)) == samples
                },
                _ => frames.len() == 0,
            }
        }),
{
    lemma_pieces_are_cut(data, sample_rate, num_channels);
    if let (Some(h), Some(samples)) = (wav_header_of(data), wav_samples_of(data)) {
        lemma_pieces_are_cut(pcm_of(samples), h.sample_rate, h.channels);
        lemma_samples_round_trip(samples);
    }
}

/// A microphone captures from a start on, at the rate of the transport, where
/// there is an audio queue and the rate is known; an earlier capture is stopped
/// before. An end and a cancellation stop it. No other frame starts or stops it.
pub proof fn lemma_microphone_captures(m: MicModel, frame: FrameView, direction: Direction)
    ensures
        ({
            let (after, actions) = m.processed(frame, direction);
            let starts = gathered(actions, |a: MicAction| capture_started(a));
            let stops = gathered(actions, |a: MicAction| capture_stopped(a));
            match frame {
                FrameView::Start(_) => {
                    let can = after.inner.audio_open && after.inner.sample_rate != 0;
                    &&& starts == if can {
                        seq![after.inner.sample_rate]
                    } else {
                        Seq::empty()
                    }
                    &&& stops.len() == if m.capturing {
                        1nat
                    } else {
                        0
                    }
                    &&& m.capturing && can ==> actions[actions.len() - 2] is StopCapture
                },
                FrameView::End | FrameView::Cancel => starts.len() == 0 && stops.len() == 1
                    && actions.last() is StopCapture && !after.capturing,
                _ => starts.len() == 0 && stops.len() == 0 && after.capturing == m.capturing,
            }
        }),
{
    let f = |a: MicAction| capture_started(a);
    let g = |a: MicAction| capture_stopped(a);
    let (inner, first) = m.inner.processed(frame, direction);
    let actions = m.processed(frame, direction).1;
    lemma_gathered_nothing(mic_inner(first), f);
    lemma_gathered_nothing(mic_inner(first), g);
    match frame {
        FrameView::Start(_) => {
            let (inner, second) = inner.spawned();
            let third = MicModel { inner, ..m }.capture().1;
            lemma_gathered_nothing(mic_inner(second), f);
            lemma_gathered_nothing(mic_inner(second), g);
            lemma_gathered_few(third, f);
            lemma_gathered_few(third, g);
            lemma_gathered_concat(mic_inner(first), mic_inner(second), f);
            lemma_gathered_concat(mic_inner(first), mic_inner(second), g);
            lemma_gathered_concat(mic_inner(first) + mic_inner(second), third, f);
            lemma_gathered_concat(mic_inner(first) + mic_inner(second), third, g);
            let starts = gathered(actions, f);
            if inner.audio_open && inner.sample_rate != 0 {
                assert(starts =~= seq![inner.sample_rate]);
            } else {
                assert(starts =~= Seq::empty());
            }
            if third.len() == 2 {
                assert(actions[actions.len() - 2] == third[0]);
            }
        },
        FrameView::End | FrameView::Cancel => {
            let stop = seq![MicAction::StopCapture];
            assert(actions =~= mic_inner(first) + stop);
            lemma_gathered_few(stop, f);
            lemma_gathered_few(stop, g);
            lemma_gathered_concat(mic_inner(first), stop, f);
            lemma_gathered_concat(mic_inner(first), stop, g);
        },
        _ => {},
    }
}

/// The rate at which an action starts a capture.
pub open spec fn capture_started(a: MicAction) -> Seq<u32> {
    match a {
        MicAction::StartCapture { target_rate } => seq![target_rate],
        _ => Seq::empty(),
    }
}

/// Whether an action stops a capture.
pub open spec fn capture_stopped(a: MicAction) -> Seq<()> {
    match a {
        MicAction::StopCapture => seq![()],
        _ => Seq::empty(),
    }
}

// ---------------------------------------------------------------------------
// The player
// ---------------------------------------------------------------------------

/// Samples are resampled exactly where the device has another rate than the
/// source, and remapped exactly where it has another number of channels, from the
/// source's to the device's.
pub proof fn lemma_samples_are_converted(p: ActivePlayback)
    ensures
        p.conversion() matches PlayerStep::Buffer { channels, resample, remap } && channels
            == p.source_channels && (p.source_rate == p.device_rate ==> resample is None) && (
        p.source_rate != p.device_rate ==> resample == Some((p.source_rate, p.device_rate))) && (
        p.source_channels == p.device_channels ==> remap is None) && (p.source_channels
            != p.device_channels ==> remap == Some((p.source_channels, p.device_channels))),
{
}

/// A player opens its device with the first audio, and never again; audio is
/// buffered while the device is open. An end closes it once it has drained, and
/// nothing is played after that. Other frames change nothing.
pub proof fn lemma_player_opens_once(m: PlayerModel, frame: FrameView)
    ensures
        ({
            let (after, step) = m.processed(frame);
            &&& step is OpenDevice <==> frame is InputAudioRaw && m.state is Pending
            &&& step is OpenDevice ==> !(after.state is Pending)
            &&& step is Buffer <==> frame is InputAudioRaw && m.state is Active
            &&& step is DrainAndClose <==> (frame is End || frame is Cancel) && m.state is Active
            &&& frame is End || frame is Cancel ==> after.state is Finalized
            &&& !(m.state is Pending) ==> !(after.state is Pending)
            &&& m.state is Finalized ==> after == m && step is Pass
            &&& m.state is Active && !(frame is End || frame is Cancel) ==> after == m
            &&& after.device_name == m.device_name
        }),
{
}

// ---------------------------------------------------------------------------
// Images
// ---------------------------------------------------------------------------

proof fn lemma_scaled_place(x: int, from: int, to: int, place: int)
    requires
        0 <= x,
        0 < to,
        place * to <= x * from < (place + 1) * to,
    ensures
        x * from / to == place,
{
    let rest = x * from - place * to;
    assert(0 <= rest < to) by (nonlinear_arith)
        requires
            place * to <= x * from < (place + 1) * to,
            rest == x * from - place * to,
    ;
    lemma_fundamental_div_mod_converse(x * from, to, place, rest);
}

/// A resized image shows at each place the pixel of the source that lies there:
/// the one in row `sy` and column `sx` where the place lies, in the scale of the
/// source, between that row and column and the next. The pixel is shown byte for
/// byte.
pub proof fn lemma_resized_pixels_lie_there(
    frame: ImageOf<Seq<char>, Seq<u8>>,
    width: u32,
    height: u32,
    x: int,
    y: int,
    sx: int,
    sy: int,
    k: int,
)
    requires
        pixel_bytes(frame.format) is Some,
        frame.image.len() == frame.size.0 * frame.size.1 * pixel_bytes(frame.format)->0,
        frame.size.0 > 0,
        frame.size.1 > 0,
        frame.size != (width, height),
        width * height * pixel_bytes(frame.format)->0 <= isize::MAX,
        0 <= x < width,
        0 <= y < height,
        0 <= k < pixel_bytes(frame.format)->0,
        sx * width as int <= x * frame.size.0 as int,
        x * (frame.size.0 as int) < (sx + 1) * width as int,
        sy * height as int <= y * frame.size.1 as int,
        y * (frame.size.1 as int) < (sy + 1) * height as int,
    ensures
        ({
            let bpp = pixel_bytes(frame.format)->0 as int;
            resized(frame, width, height).image[(y * width as int + x) * bpp + k]
                == frame.image[(sy * frame.size.0 as int + sx) * bpp + k]
        }),
{
    let bpp = pixel_bytes(frame.format)->0 as int;
    let (dw, dh) = (width as int, height as int);
    let (sw, sh) = (frame.size.0 as int, frame.size.1 as int);
    let pixel = y * dw + x;
    let i = pixel * bpp + k;
    lemma_scaled_place(x, sw, dw, sx);
    lemma_scaled_place(y, sh, dh, sy);
    lemma_fundamental_div_mod_converse(i, bpp, pixel, k);
    lemma_fundamental_div_mod_converse(pixel, dw, y, x);
    assert(source_index(i, sw, sh, dw, dh, bpp) == (sy * sw + sx) * bpp + k);
    assert(0 <= pixel < dw * dh) by (nonlinear_arith)
        requires
            0 <= x < dw,
            0 <= y < dh,
            pixel == y * dw + x,
    ;
    assert(0 <= i < dw * dh * bpp) by (nonlinear_arith)
        requires
            0 <= pixel < dw * dh,
            0 <= k < bpp,
            i == pixel * bpp + k,
    ;
    assert(!crate::transport::image::lacks_pixels(frame, width, height));
    assert(!crate::transport::image::outgrows(frame, width, height));
}

/// An image stays as it is where it has the size already, where the size of its
/// pixels is not known, and where its data is not what its size asks for.
pub proof fn lemma_other_images_stay(
    frame: ImageOf<Seq<char>, Seq<u8>>,
    width: u32,
    height: u32,
)
    requires
        frame.size == (width, height) || pixel_bytes(frame.format) is None || frame.image.len()
            != frame.size.0 * frame.size.1 * pixel_bytes(frame.format)->0,
    ensures
        resized(frame, width, height) == frame,
{
}

/// Pixels of color have three bytes, with a fourth where they are transparent,
/// and gray ones have one.
pub proof fn lemma_sizes_of_pixels(format: Seq<char>)
    ensures
        pixel_bytes(Some(format)) == Some(3nat) <==> format == "RGB"@,
        pixel_bytes(Some(format)) == Some(4nat) <==> format == "RGBA"@ || format == "BGRA"@
            || format == "ARGB"@,
        pixel_bytes(Some(format)) == Some(1nat) <==> format == "L"@ || format == "GRAY"@,
        pixel_bytes(None) is None,
{
    reveal_strlit("RGB");
    reveal_strlit("RGBA");
    reveal_strlit("BGRA");
    reveal_strlit("ARGB");
    reveal_strlit("L");
    reveal_strlit("GRAY");
    assert("RGB"@.len() == 3 && "L"@.len() == 1 && "RGBA"@.len() == 4 && "BGRA"@.len() == 4
        && "ARGB"@.len() == 4 && "GRAY"@.len() == 4);
    assert("GRAY"@[0] == 'G' && "RGBA"@[0] == 'R' && "BGRA"@[0] == 'B' && "ARGB"@[0] == 'A');
}

// ---------------------------------------------------------------------------
// The pace of video
// ---------------------------------------------------------------------------

/// The first frame is shown at once. A frame that comes ahead of its place waits
/// until a frame behind it; one that comes late does not wait. The timing starts
/// anew exactly where the wait would be longer than five frames, or the frame is
/// more than five frames late.
pub proof fn lemma_frames_keep_their_pace(c: PacerModel, now: u64)
    requires
        c.frame_index < 4294967296,
        c.start_time matches Some(t) ==> t <= now,
    ensures
        c.start_time is None ==> !c.begun(now).drifted(now) && c.begun(now).delay(now) == 0
            && c.begun(now).start_time == Some(now),
        c.start_time matches Some(t) ==> {
            let passed = now - t;
            let place = c.frame_duration * c.frame_index;
            &&& c.begun(now) == c
            &&& place > passed ==> passed + c.delay(now) == place + c.frame_duration
            &&& place <= passed ==> c.delay(now) == 0
            &&& c.drifted(now) <==> c.delay(now) > 5 * c.frame_duration || passed > place + 5
                * c.frame_duration
        },
{
    assert(c.frame_duration as int * 0 == 0);
}

} // verus!
