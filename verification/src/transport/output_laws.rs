//! What holds of an output transport whatever frame comes.
use vstd::prelude::*;

use crate::frames::{Direction, EnvelopeView, FrameView, StartFrame};
use crate::json::Json;
use crate::runs::{gathered, lemma_gathered_concat, lemma_gathered_few, lemma_gathered_nothing};
use crate::transport::media_sender::{SenderActionView, SenderModel, VideoTask};
use crate::transport::output::{
    cancel_all, chunk_bytes, names_of, of_sender, sender_at, stop_all, without_repetitions,
    FrameFactsView, OutputActionView, OutputModel,
};

verus! {

/// Whether there is a sender for a destination.
pub open spec fn serves(senders: Seq<SenderModel>, destination: Option<Seq<char>>) -> bool {
    exists|i: int| 0 <= i < senders.len() && (#[trigger] senders[i]).destination == destination
}

proof fn lemma_sender_at_finds(
    senders: Seq<SenderModel>,
    destination: Option<Seq<char>>,
    n: nat,
)
    requires
        n <= senders.len(),
    ensures
        match sender_at(senders, destination, n) {
            Some(i) => 0 <= i < n && senders[i].destination == destination,
            None => forall|i: int|
                0 <= i < n ==> (#[trigger] senders[i]).destination != destination,
        },
    decreases n,
{
    if n > 0 {
        lemma_sender_at_finds(senders, destination, (n - 1) as nat);
    }
}

/// A destination is served by its own sender, or else by the default one, or else
/// by none.
pub proof fn lemma_destinations_are_served(m: OutputModel, destination: Option<Seq<char>>)
    ensures
        match m.resolve(destination) {
            Some(i) => {
                &&& 0 <= i < m.senders.len()
                &&& serves(m.senders, destination) ==> m.senders[i].destination == destination
                &&& !serves(m.senders, destination) ==> m.senders[i].destination is None
            },
            None => !serves(m.senders, destination) && !serves(m.senders, None),
        },
{
    lemma_sender_at_finds(m.senders, destination, m.senders.len());
    lemma_sender_at_finds(m.senders, None, m.senders.len());
    if let Some(i) = sender_at(m.senders, destination, m.senders.len()) {
        assert(m.senders[i].destination == destination);
    }
}

/// What becomes of a frame.
pub enum Fate {
    Forwarded(Direction),
    /// Put in the audio queue of a destination.
    Queued(Option<Seq<char>>),
    /// Put in the clock queue of a destination.
    Timed(Option<Seq<char>>),
    Message(Json),
    Tone(u8),
}

/// What an action makes of the frame at hand.
pub open spec fn fate(a: OutputActionView) -> Seq<Fate> {
    match a {
        OutputActionView::Forward(d) => seq![Fate::Forwarded(d)],
        OutputActionView::Sender { destination, action: SenderActionView::QueueThis } => seq![
            Fate::Queued(destination),
        ],
        OutputActionView::Sender { destination, action: SenderActionView::QueueTimed } => seq![
            Fate::Timed(destination),
        ],
        OutputActionView::SendMessage(m) => seq![Fate::Message(m)],
        OutputActionView::WriteDtmf(b) => seq![Fate::Tone(b)],
        _ => Seq::empty(),
    }
}

/// What actions make of the frame at hand.
pub open spec fn fates(actions: Seq<OutputActionView>) -> Seq<Fate> {
    gathered(actions, |a: OutputActionView| fate(a))
}

/// Whether a frame is one that an output takes in itself, and does not treat by
/// its direction and time.
pub open spec fn taken_in(f: FrameView) -> bool {
    ||| f is Start || f is End || f is Cancel || f is Interruption
    ||| f is OutputTransportMessageUrgent || f is OutputDTMFUrgent
    ||| f is OutputDTMF || f is TTSStopped
    ||| f is OutputAudioRaw || f is TTSAudioRaw || f is SpeechOutputAudioRaw
    ||| f is MixerUpdateSettings || f is MixerEnable
    ||| f is OutputImageRaw || f is Sprite || f is AssistantImageRaw
}

/// Frames that an output does not take in itself: those that go upstream and
/// system frames are forwarded. Others wait in a queue of the sender that serves
/// their destination, where it runs: the clock queue if they have a time, else
/// the audio queue. If there is no sender they are forwarded.
pub proof fn lemma_other_frames_are_queued_or_forwarded(
    m: OutputModel,
    e: EnvelopeView,
    direction: Direction,
    facts: FrameFactsView,
)
    requires
        !taken_in(e.frame),
    ensures
        ({
            let (after, actions) = m.processed(e, direction, facts);
            &&& after == m
            &&& fates(actions) == if direction == Direction::Upstream || facts.is_system {
                seq![Fate::Forwarded(direction)]
            } else {
                match m.resolve(e.transport_destination) {
                    None => seq![Fate::Forwarded(direction)],
                    Some(i) => if e.pts is Some {
                        if m.senders[i].clock_open {
                            seq![Fate::Timed(m.senders[i].destination)]
                        } else {
                            Seq::empty()
                        }
                    } else {
                        if m.senders[i].audio_open {
                            seq![Fate::Queued(m.senders[i].destination)]
                        } else {
                            Seq::empty()
                        }
                    },
                }
            }
            &&& actions.len() <= 1
        }),
{
    lemma_destinations_are_served(m, e.transport_destination);
    let (after, actions) = m.processed(e, direction, facts);
    if let Some(i) = m.resolve(e.transport_destination) {
        assert(m.senders.update(i, m.senders[i]) =~= m.senders);
    }
    lemma_gathered_few(actions, |a: OutputActionView| fate(a));
    if actions.len() == 0 {
        assert(fates(actions) =~= Seq::empty());
    }
}

/// Urgent messages and tones leave at once, as they are. Tones and ends of
/// synthesis keep their place in the audio queue. Starts, ends, cancellations and
/// interruptions are forwarded, once.
pub proof fn lemma_frames_taken_in(
    m: OutputModel,
    e: EnvelopeView,
    direction: Direction,
    facts: FrameFactsView,
)
    ensures
        ({
            let (after, actions) = m.processed(e, direction, facts);
            match e.frame {
                FrameView::OutputTransportMessageUrgent { message } => fates(actions) == seq![
                    Fate::Message(message),
                ] && after == m,
                FrameView::OutputDTMFUrgent { button } => fates(actions) == seq![
                    Fate::Tone(button),
                ] && after == m,
                FrameView::OutputDTMF { .. } | FrameView::TTSStopped { .. } => fates(actions)
                    == match m.resolve(e.transport_destination) {
                    Some(i) if m.senders[i].audio_open => seq![
                        Fate::Queued(m.senders[i].destination),
                    ],
                    _ => Seq::empty(),
                } && after == m,
                FrameView::Start(_) => fates(actions) == seq![Fate::Forwarded(direction)]
                    && after.senders == m.senders,
                FrameView::Interruption => actions.len() > 0 && actions[0]
                    == OutputActionView::Forward(direction) && fates(actions) == seq![
                    Fate::Forwarded(direction),
                ],
                FrameView::End | FrameView::Cancel => actions.len() > 0 && actions.last()
                    == OutputActionView::Forward(direction) && fates(actions) == seq![
                    Fate::Forwarded(direction),
                ],
                _ => true,
            }
        }),
{
    lemma_destinations_are_served(m, e.transport_destination);
    let (after, actions) = m.processed(e, direction, facts);
    let f = |a: OutputActionView| fate(a);
    let forward = seq![OutputActionView::Forward(direction)];
    lemma_gathered_few(forward, f);
    match e.frame {
        FrameView::OutputDTMF { .. } | FrameView::TTSStopped { .. } => {
            if let Some(i) = m.resolve(e.transport_destination) {
                assert(m.senders.update(i, m.senders[i]) =~= m.senders);
            }
            lemma_gathered_few(actions, f);
            if actions.len() == 0 {
                assert(fates(actions) =~= Seq::empty());
            }
        },
        FrameView::Interruption => {
            let rest = actions.skip(1);
            assert(actions =~= forward + rest);
            assert forall|i: int| 0 <= i < rest.len() implies (#[trigger] f(rest[i])).len()
                == 0 by {
                assert(rest[i] == actions[i + 1]);
            }
            lemma_gathered_nothing(rest, f);
            lemma_gathered_concat(forward, rest, f);
            assert(fates(actions) =~= seq![Fate::Forwarded(direction)]);
        },
        FrameView::End => {
            if m.started {
                lemma_stopping_has_no_fate(m.senders);
                lemma_gathered_concat(stop_all(m.senders).1, forward, f);
            }
            assert(fates(actions) =~= seq![Fate::Forwarded(direction)]);
        },
        FrameView::Cancel => {
            lemma_stopping_has_no_fate(m.senders);
            lemma_gathered_concat(cancel_all(m.senders).1, forward, f);
            assert(fates(actions) =~= seq![Fate::Forwarded(direction)]);
        },
        _ => {
            lemma_gathered_few(actions, f);
        },
    }
}

proof fn lemma_stopping_has_no_fate(senders: Seq<SenderModel>)
    ensures
        fates(stop_all(senders).1).len() == 0,
        fates(cancel_all(senders).1).len() == 0,
    decreases senders.len(),
{
    if senders.len() > 0 {
        let front = senders.drop_last();
        lemma_stopping_has_no_fate(front);
        let f = |a: OutputActionView| fate(a);
        let stop = of_sender(senders.last().destination, senders.last().stopped().1);
        let cancel = of_sender(senders.last().destination, senders.last().cancelled().1);
        lemma_gathered_nothing(stop, f);
        lemma_gathered_nothing(cancel, f);
        lemma_gathered_concat(stop_all(front).1, stop, f);
        lemma_gathered_concat(cancel_all(front).1, cancel, f);
    }
}

/// A frame for one destination leaves the senders of all others as they are, and
/// asks nothing of them.
pub proof fn lemma_other_destinations_are_left_alone(
    m: OutputModel,
    e: EnvelopeView,
    direction: Direction,
    facts: FrameFactsView,
)
    requires
        !(e.frame is End || e.frame is Cancel),
    ensures
        ({
            let (after, actions) = m.processed(e, direction, facts);
            &&& after.senders.len() == m.senders.len()
            &&& forall|j: int|
                0 <= j < m.senders.len() && m.resolve(e.transport_destination) != Some(j)
                    ==> #[trigger] after.senders[j] == m.senders[j]
            &&& forall|k: int|
                0 <= k < actions.len() ==> ((#[trigger] actions[k])
                    matches OutputActionView::Sender { destination, .. } ==> (m.resolve(
                    e.transport_destination,
                ) matches Some(i) && destination == m.senders[i].destination))
            &&& after.params == m.params
            &&& after.name == m.name
        }),
{
    lemma_destinations_are_served(m, e.transport_destination);
}

/// A sender that is served takes the frame as such: an interruption as far as it
/// is allowed, audio with what was resampled of it, images, and requests to its
/// mixer.
pub proof fn lemma_senders_take_their_frames(
    m: OutputModel,
    e: EnvelopeView,
    direction: Direction,
    facts: FrameFactsView,
    i: int,
)
    requires
        m.resolve(e.transport_destination) == Some(i),
    ensures
        ({
            let after = m.processed(e, direction, facts).0.senders[i];
            let s = m.senders[i];
            match e.frame {
                FrameView::Interruption => after == s.interrupted(
                    m.allow_interruptions,
                    facts.bot_speaking,
                ).0,
                FrameView::OutputAudioRaw(_)
                | FrameView::TTSAudioRaw(_)
                | FrameView::SpeechOutputAudioRaw(_) => after == s.audio_arrived(
                    e.frame,
                    facts.resampled,
                ).0,
                FrameView::OutputImageRaw(_)
                | FrameView::Sprite(_)
                | FrameView::AssistantImageRaw(_) => after == s.image_arrived(e.frame).0,
                FrameView::End | FrameView::Cancel => true,
                _ => after == s,
            }
        }),
        e.frame is AssistantImageRaw ==> fates(m.processed(e, direction, facts).1)
            == if m.senders[i].audio_open {
            seq![Fate::Queued(m.senders[i].destination)]
        } else {
            Seq::empty()
        },
{
    lemma_destinations_are_served(m, e.transport_destination);
    if e.frame is AssistantImageRaw {
        let f = |a: OutputActionView| fate(a);
        let actions = m.processed(e, direction, facts).1;
        lemma_gathered_few(actions, f);
        assert(fates(actions) =~= if m.senders[i].audio_open {
            seq![Fate::Queued(m.senders[i].destination)]
        } else {
            Seq::empty()
        });
    }
}

/// At the end, and with a cancellation, no sender has a queue or a video task any
/// more, and each that had one was told: at the end to let it drain, with a
/// cancellation to close it.
pub proof fn lemma_all_senders_are_ended(senders: Seq<SenderModel>, i: int)
    requires
        0 <= i < senders.len(),
    ensures
        ({
            let (after, actions) = stop_all(senders);
            let s = senders[i];
            &&& after.len() == senders.len()
            &&& !after[i].audio_open && !after[i].clock_open && after[i].video == VideoTask::Idle
            &&& after[i].destination == s.destination
            &&& s.audio_open ==> actions.contains(
                OutputActionView::Sender {
                    destination: s.destination,
                    action: SenderActionView::FinishAudio { wait_secs: 5 },
                },
            )
            &&& s.clock_open ==> actions.contains(
                OutputActionView::Sender {
                    destination: s.destination,
                    action: SenderActionView::FinishClock { pts: u64::MAX, wait_secs: 5 },
                },
            )
        }),
        ({
            let (after, actions) = cancel_all(senders);
            let s = senders[i];
            &&& after.len() == senders.len()
            &&& !after[i].audio_open && !after[i].clock_open && after[i].video == VideoTask::Idle
            &&& after[i].destination == s.destination
            &&& s.audio_open ==> actions.contains(
                OutputActionView::Sender {
                    destination: s.destination,
                    action: SenderActionView::CloseAudio { wait_secs: 1 },
                },
            )
            &&& s.clock_open ==> actions.contains(
                OutputActionView::Sender {
                    destination: s.destination,
                    action: SenderActionView::CloseClock { wait_secs: 1 },
                },
            )
        }),
    decreases senders.len(),
{
    let front = senders.drop_last();
    let s = senders[i];
    let (fs, fa) = stop_all(front);
    let (cs, ca) = cancel_all(front);
    let stop = of_sender(senders.last().destination, senders.last().stopped().1);
    let cancel = of_sender(senders.last().destination, senders.last().cancelled().1);
    lemma_lengths(front);
    let finish_audio = OutputActionView::Sender {
        destination: s.destination,
        action: SenderActionView::FinishAudio { wait_secs: 5 },
    };
    let finish_clock = OutputActionView::Sender {
        destination: s.destination,
        action: SenderActionView::FinishClock { pts: u64::MAX, wait_secs: 5 },
    };
    let close_audio = OutputActionView::Sender {
        destination: s.destination,
        action: SenderActionView::CloseAudio { wait_secs: 1 },
    };
    let close_clock = OutputActionView::Sender {
        destination: s.destination,
        action: SenderActionView::CloseClock { wait_secs: 1 },
    };
    if i < senders.len() - 1 {
        lemma_all_senders_are_ended(front, i);
        lemma_contains_first(fa, stop, finish_audio);
        lemma_contains_first(fa, stop, finish_clock);
        lemma_contains_first(ca, cancel, close_audio);
        lemma_contains_first(ca, cancel, close_clock);
    } else {
        let k: int = if s.audio_open {
            1
        } else {
            0
        };
        assert(s.audio_open ==> stop[0] == finish_audio && cancel[0] == close_audio);
        assert(s.clock_open ==> stop[k] == finish_clock && cancel[k] == close_clock);
        lemma_contains_second(fa, stop, finish_audio);
        lemma_contains_second(fa, stop, finish_clock);
        lemma_contains_second(ca, cancel, close_audio);
        lemma_contains_second(ca, cancel, close_clock);
    }
}

proof fn lemma_lengths(senders: Seq<SenderModel>)
    ensures
        stop_all(senders).0.len() == senders.len(),
        cancel_all(senders).0.len() == senders.len(),
    decreases senders.len(),
{
    if senders.len() > 0 {
        lemma_lengths(senders.drop_last());
    }
}

proof fn lemma_contains_first(
    a: Seq<OutputActionView>,
    b: Seq<OutputActionView>,
    x: OutputActionView,
)
    ensures
        a.contains(x) ==> (a + b).contains(x),
{
    if a.contains(x) {
        assert((a + b)[a.index_of(x)] == x);
    }
}

proof fn lemma_contains_second(
    a: Seq<OutputActionView>,
    b: Seq<OutputActionView>,
    x: OutputActionView,
)
    ensures
        b.contains(x) ==> (a + b).contains(x),
{
    if b.contains(x) {
        assert((a + b)[a.len() + b.index_of(x)] == x);
    }
}

/// A start sets the rate, the transport's own before the frame's, and with it the
/// chunk size: two bytes for each sample of each channel over so many hundredths
/// of a second. Whether interruptions are allowed is the frame's to say.
pub proof fn lemma_start_sets_the_chunks(m: OutputModel, frame: StartFrame)
    requires
        chunk_bytes(
            m.params,
            match m.params.audio_out_sample_rate {
                Some(rate) => rate,
                None => frame.audio_out_sample_rate,
            },
        ) <= usize::MAX,
    ensures
        ({
            let after = m.begun(frame);
            let samples = after.sample_rate as int / 100;
            &&& after.started
            &&& after.allow_interruptions == frame.allow_interruptions
            &&& m.params.audio_out_sample_rate matches Some(rate) ==> after.sample_rate == rate
            &&& m.params.audio_out_sample_rate is None ==> after.sample_rate
                == frame.audio_out_sample_rate
            &&& after.audio_chunk_size == 2 * (samples * m.params.audio_out_channels as int)
                * m.params.audio_out_10ms_chunks as int
            &&& after.senders == m.senders
        }),
{
    let rate = match m.params.audio_out_sample_rate {
        Some(rate) => rate,
        None => frame.audio_out_sample_rate,
    };
    let (a, b, c) = (
        rate as int / 100,
        m.params.audio_out_channels as int,
        m.params.audio_out_10ms_chunks as int,
    );
    assert(0 <= a * b * 2 * c && a * b * 2 * c == 2 * (a * b) * c) by (nonlinear_arith)
        requires
            a >= 0,
            b >= 0,
            c >= 0,
    ;
}

/// Each name of a list is in the list without repetitions once, and no other name
/// is.
pub proof fn lemma_names_stay_once(names: Seq<Seq<char>>)
    ensures
        forall|n: Seq<char>| #[trigger]
            without_repetitions(names).contains(n) <==> names.contains(n),
        without_repetitions(names).no_duplicates(),
    decreases names.len(),
{
    if names.len() > 0 {
        let front = names.drop_last();
        lemma_names_stay_once(front);
        let kept = without_repetitions(front);
        let all = without_repetitions(names);
        assert forall|n: Seq<char>| #[trigger] all.contains(n) <==> names.contains(n) by {
            assert(kept.contains(n) <==> front.contains(n));
            if names.contains(n) {
                let i = names.index_of(n);
                if i < names.len() - 1 {
                    assert(front[i] == n);
                    let k = kept.index_of(n);
                    assert(all[k] == n);
                } else if kept.contains(n) {
                    assert(all[kept.index_of(n)] == n);
                } else {
                    assert(all[kept.len() as int] == n);
                }
            }
            if all.contains(n) {
                let i = all.index_of(n);
                if i < kept.len() {
                    assert(kept[i] == n);
                    assert(names[front.index_of(n)] == n);
                } else {
                    assert(names[names.len() - 1] == n);
                }
            }
        }
    }
}

/// The destinations that an action makes an audio queue run for.
pub open spec fn queue_run(a: OutputActionView) -> Seq<Option<Seq<char>>> {
    match a {
        OutputActionView::Sender { destination, action: SenderActionView::SpawnAudio } => seq![
            destination,
        ],
        _ => Seq::empty(),
    }
}

/// The destinations that an action registers for audio.
pub open spec fn registered(a: OutputActionView) -> Seq<Seq<char>> {
    match a {
        OutputActionView::RegisterAudioDestination(n) => seq![n],
        _ => Seq::empty(),
    }
}

/// The destinations that an action registers for video.
pub open spec fn registered_for_video(a: OutputActionView) -> Seq<Seq<char>> {
    match a {
        OutputActionView::RegisterVideoDestination(n) => seq![n],
        _ => Seq::empty(),
    }
}

proof fn lemma_sender_is_added(
    m: OutputModel,
    destination: Option<Seq<char>>,
    has_mixer: bool,
    has_resampler: bool,
)
    requires
        !serves(m.senders, destination),
    ensures
        ({
            let (after, actions) = m.sender_added(destination, has_mixer, has_resampler);
            let s = after.senders.last();
            &&& after == (OutputModel { senders: m.senders.push(s), ..m })
            &&& s.destination == destination
            &&& s.config.sample_rate == m.sample_rate
            &&& s.config.audio_chunk_size == m.audio_chunk_size
            &&& s.config.has_mixer == has_mixer
            &&& s.config.has_resampler == has_resampler
            &&& s.config.audio_out_enabled == m.params.audio_out_enabled
            &&& s.config.video_out_enabled == m.params.video_out_enabled
            &&& s.config.video_out_is_live == m.params.video_out_is_live
            &&& s.audio_open && s.clock_open && s.buffer.len() == 0
            &&& gathered(actions, |a: OutputActionView| queue_run(a)) == seq![destination]
            &&& gathered(actions, |a: OutputActionView| registered(a)).len() == 0
            &&& gathered(actions, |a: OutputActionView| registered_for_video(a)).len() == 0
        }),
{
    lemma_sender_at_finds(m.senders, destination, m.senders.len());
    let (after, actions) = m.sender_added(destination, has_mixer, has_resampler);
    if let Some(i) = sender_at(m.senders, destination, m.senders.len()) {
        assert(m.senders[i].destination == destination);
    }
    lemma_gathered_few(actions, |a: OutputActionView| queue_run(a));
    lemma_gathered_few(actions, |a: OutputActionView| registered(a));
    lemma_gathered_few(actions, |a: OutputActionView| registered_for_video(a));
    assert(actions.len() <= 4);
    assert(gathered(actions, |a: OutputActionView| queue_run(a)) =~= seq![destination]);
}

/// Whether senders were made for these names, behind others, with the settings
/// of the transport.
pub open spec fn made_for(
    m: OutputModel,
    senders: Seq<SenderModel>,
    names: Seq<Seq<char>>,
    has_resampler: bool,
) -> bool {
    &&& senders.len() == m.senders.len() + names.len()
    &&& senders.take(m.senders.len() as int) == m.senders
    &&& forall|k: int|
        0 <= k < names.len() ==> {
            let s = #[trigger] senders[m.senders.len() + k];
            &&& s.destination == Some(names[k])
            &&& s.config.sample_rate == m.sample_rate
            &&& s.config.audio_chunk_size == m.audio_chunk_size
            &&& s.config.has_mixer == m.mixers.contains(names[k])
            &&& s.config.has_resampler == has_resampler
            &&& s.audio_open && s.clock_open
        }
}

proof fn lemma_mixers_are_given_away(
    m: OutputModel,
    names: Seq<Seq<char>>,
    has_resampler: bool,
    other: Seq<char>,
)
    ensures
        m.destinations_added(names, has_resampler).0.mixers.contains(other) <==> m.mixers.contains(other)
            && !names.contains(other),
    decreases names.len(),
{
    if names.len() > 0 {
        let front = names.drop_last();
        let name = names.last();
        lemma_mixers_are_given_away(m, front, has_resampler, other);
        let mid = m.destinations_added(front, has_resampler).0;
        assert forall|keep: spec_fn(Seq<char>) -> bool| (#[trigger] mid.mixers.filter(
            keep,
        )).contains(other) == (mid.mixers.contains(other) && keep(other)) by {
            lemma_filtered(mid.mixers, keep, other);
        }
        if names.contains(other) && other != name {
            let i = names.index_of(other);
            assert(front[i] == other);
        }
        if front.contains(other) {
            assert(names[front.index_of(other)] == other);
        }
        if other == name {
            assert(names[names.len() - 1] == other);
        }
    }
}

proof fn lemma_name_is_new(
    m: OutputModel,
    senders: Seq<SenderModel>,
    names: Seq<Seq<char>>,
    name: Seq<char>,
    has_resampler: bool,
)
    requires
        made_for(m, senders, names, has_resampler),
        !names.contains(name),
        !serves(m.senders, Some(name)),
    ensures
        !serves(senders, Some(name)),
{
    let n0 = m.senders.len() as int;
    if serves(senders, Some(name)) {
        let i = choose|i: int|
            0 <= i < senders.len() && (#[trigger] senders[i]).destination == Some(name);
        if i < n0 {
            assert(senders.take(n0)[i] == m.senders[i]);
            assert(serves(m.senders, Some(name)));
        } else {
            let k = i - n0;
            assert(senders[m.senders.len() + k].destination == Some(names[k]));
        }
    }
}

proof fn lemma_senders_are_made(m: OutputModel, names: Seq<Seq<char>>, has_resampler: bool)
    requires
        names.no_duplicates(),
        forall|k: int| 0 <= k < names.len() ==> !serves(m.senders, Some(#[trigger] names[k])),
    ensures
        ({
            let after = m.destinations_added(names, has_resampler).0;
            &&& made_for(m, after.senders, names, has_resampler)
            &&& after == (OutputModel { senders: after.senders, mixers: after.mixers, ..m })
        }),
    decreases names.len(),
{
    if names.len() == 0 {
        let after = m.destinations_added(names, has_resampler).0;
        assert(after.senders.take(m.senders.len() as int) =~= m.senders);
    } else {
        let front = names.drop_last();
        let name = names.last();
        let mid = lemma_before_the_last(m, names, has_resampler);
        let n0 = m.senders.len() as int;
        let has_mixer = mid.mixers.contains(name);
        lemma_sender_is_added(mid, Some(name), has_mixer, has_resampler);
        let after = mid.destination_added(name, has_resampler).0;
        lemma_mixers_are_given_away(m, front, has_resampler, name);
        assert(after.senders.take(n0) =~= mid.senders.take(n0));
        assert forall|k: int| 0 <= k < names.len() implies ({
            let s = #[trigger] after.senders[m.senders.len() + k];
            &&& s.destination == Some(names[k])
            &&& s.config.sample_rate == m.sample_rate
            &&& s.config.audio_chunk_size == m.audio_chunk_size
            &&& s.config.has_mixer == m.mixers.contains(names[k])
            &&& s.config.has_resampler == has_resampler
            &&& s.audio_open && s.clock_open
        }) by {
            if k < front.len() {
                assert(after.senders[n0 + k] == mid.senders[n0 + k]);
                assert(front[k] == names[k]);
            }
        }
    }
}

/// Before the last of some names is added, there is no sender for it yet.
proof fn lemma_before_the_last(
    m: OutputModel,
    names: Seq<Seq<char>>,
    has_resampler: bool,
) -> (mid: OutputModel)
    requires
        names.len() > 0,
        names.no_duplicates(),
        forall|k: int| 0 <= k < names.len() ==> !serves(m.senders, Some(#[trigger] names[k])),
    ensures
        mid == m.destinations_added(names.drop_last(), has_resampler).0,
        made_for(m, mid.senders, names.drop_last(), has_resampler),
        mid == (OutputModel { senders: mid.senders, mixers: mid.mixers, ..m }),
        !serves(mid.senders, Some(names.last())),
        !names.drop_last().contains(names.last()),
    decreases names.len(), 0int,
{
    let front = names.drop_last();
    assert forall|k: int| 0 <= k < front.len() implies !serves(
        m.senders,
        Some(#[trigger] front[k]),
    ) by {
        assert(!serves(m.senders, Some(names[k])));
    }
    assert(front.no_duplicates());
    lemma_senders_are_made(m, front, has_resampler);
    let mid = m.destinations_added(front, has_resampler).0;
    assert(!front.contains(names.last())) by {
        if front.contains(names.last()) {
            let k = front.index_of(names.last());
            assert(names[k] == names[names.len() - 1]);
        }
    }
    assert(!serves(m.senders, Some(names[names.len() - 1])));
    lemma_name_is_new(m, mid.senders, front, names.last(), has_resampler);
    mid
}

proof fn lemma_names_are_registered(m: OutputModel, names: Seq<Seq<char>>, has_resampler: bool)
    requires
        names.no_duplicates(),
        forall|k: int| 0 <= k < names.len() ==> !serves(m.senders, Some(#[trigger] names[k])),
    ensures
        ({
            let actions = m.destinations_added(names, has_resampler).1;
            &&& gathered(actions, |a: OutputActionView| registered(a)) == names
            &&& gathered(actions, |a: OutputActionView| registered_for_video(a)) == names
            &&& gathered(actions, |a: OutputActionView| queue_run(a)) == names.map_values(
                |n: Seq<char>| Some(n),
            )
        }),
    decreases names.len(),
{
    let some = |n: Seq<char>| Some(n);
    let run = |a: OutputActionView| queue_run(a);
    let audio = |a: OutputActionView| registered(a);
    let video = |a: OutputActionView| registered_for_video(a);
    if names.len() == 0 {
        let actions = m.destinations_added(names, has_resampler).1;
        assert(gathered(actions, audio) =~= names);
        assert(gathered(actions, video) =~= names);
        assert(gathered(actions, run) =~= names.map_values(some));
    } else {
        let front = names.drop_last();
        let name = names.last();
        let mid = lemma_before_the_last(m, names, has_resampler);
        assert forall|k: int| 0 <= k < front.len() implies !serves(
            m.senders,
            Some(#[trigger] front[k]),
        ) by {
            assert(!serves(m.senders, Some(names[k])));
        }
        lemma_names_are_registered(m, front, has_resampler);
        let actions = m.destinations_added(front, has_resampler).1;
        let has_mixer = mid.mixers.contains(name);
        lemma_sender_is_added(mid, Some(name), has_mixer, has_resampler);
        let more = mid.destination_added(name, has_resampler).1;
        let starting = mid.sender_added(Some(name), has_mixer, has_resampler).1;
        let first = seq![
            OutputActionView::RegisterAudioDestination(name),
            OutputActionView::RegisterVideoDestination(name),
        ];
        lemma_gathered_few(first, run);
        lemma_gathered_few(first, audio);
        lemma_gathered_few(first, video);
        lemma_gathered_concat(first, starting, run);
        lemma_gathered_concat(first, starting, audio);
        lemma_gathered_concat(first, starting, video);
        lemma_gathered_concat(actions, more, run);
        lemma_gathered_concat(actions, more, audio);
        lemma_gathered_concat(actions, more, video);
        assert(gathered(actions + more, audio) =~= names);
        assert(gathered(actions + more, video) =~= names);
        assert(gathered(actions + more, run) =~= names.map_values(some));
    }
}

proof fn lemma_filtered(
    list: Seq<Seq<char>>,
    keep: spec_fn(Seq<char>) -> bool,
    n: Seq<char>,
)
    ensures
        list.filter(keep).contains(n) <==> list.contains(n) && keep(n),
    decreases list.len(),
{
    reveal(Seq::filter);
    if list.len() > 0 {
        let front = list.drop_last();
        lemma_filtered(front, keep, n);
        let kept = front.filter(keep);
        let last = list.last();
        if list.contains(n) && list.index_of(n) < front.len() {
            assert(front[list.index_of(n)] == n);
        }
        if front.contains(n) {
            assert(list[front.index_of(n)] == n);
        }
        if last == n {
            assert(list[list.len() - 1] == n);
        }
        if keep(last) {
            let all = kept.push(last);
            if kept.contains(n) {
                assert(all[kept.index_of(n)] == n);
            }
            if last == n {
                assert(all[kept.len() as int] == n);
            }
            if all.contains(n) && all.index_of(n) < kept.len() {
                assert(kept[all.index_of(n)] == n);
            }
        }
    }
}

/// A transport that was started and has no senders yet gets, once it is ready, a
/// default sender and one for each named destination, whether named for audio or
/// for video: each once, with queues that run, at the rate and chunk size of the
/// transport, and with its own mixer where it has one. Each named destination is
/// registered for both. That the transport is ready is told upstream, last.
pub proof fn lemma_ready_transport_has_its_senders(m: OutputModel)
    requires
        m.started,
        m.senders.len() == 0,
    ensures
        ({
            let (after, actions) = m.made_ready();
            let names = m.destinations();
            &&& names.no_duplicates()
            &&& forall|n: Seq<char>| #[trigger]
                names.contains(n) <==> names_of(m.params.audio_out_destinations@).contains(n)
                    || names_of(m.params.video_out_destinations@).contains(n)
            &&& after.senders.len() == 1 + names.len()
            &&& after.senders[0].destination is None
            &&& after.senders[0].config.has_mixer == m.mixer
            &&& after.senders[0].config.sample_rate == m.sample_rate
            &&& after.senders[0].config.audio_chunk_size == m.audio_chunk_size
            &&& after.senders[0].audio_open && after.senders[0].clock_open
            &&& forall|k: int|
                0 <= k < names.len() ==> {
                    let s = #[trigger] after.senders[k + 1];
                    &&& s.destination == Some(names[k])
                    &&& s.config.has_mixer == m.mixers.contains(names[k])
                    &&& s.config.has_resampler == m.resampler
                    &&& s.config.sample_rate == m.sample_rate
                    &&& s.config.audio_chunk_size == m.audio_chunk_size
                    &&& s.audio_open && s.clock_open
                }
            &&& gathered(actions, |a: OutputActionView| registered(a)) == names
            &&& gathered(actions, |a: OutputActionView| registered_for_video(a)) == names
            &&& gathered(actions, |a: OutputActionView| queue_run(a)).len() == 1 + names.len()
            &&& actions.last() == OutputActionView::SendUpstream(FrameView::OutputTransportReady)
        }),
{
    let run = |a: OutputActionView| queue_run(a);
    let audio = |a: OutputActionView| registered(a);
    let video = |a: OutputActionView| registered_for_video(a);
    let both = names_of(m.params.audio_out_destinations@) + names_of(
        m.params.video_out_destinations@,
    );
    let names = m.destinations();
    lemma_names_stay_once(both);
    assert forall|n: Seq<char>| #[trigger] names.contains(n) <==> names_of(
        m.params.audio_out_destinations@,
    ).contains(n) || names_of(m.params.video_out_destinations@).contains(n) by {
        let a = names_of(m.params.audio_out_destinations@);
        let b = names_of(m.params.video_out_destinations@);
        if a.contains(n) {
            assert(both[a.index_of(n)] == n);
        }
        if b.contains(n) {
            assert(both[a.len() + b.index_of(n)] == n);
        }
    }
    let m0 = OutputModel { resampler: false, mixer: false, ..m };
    lemma_sender_is_added(m0, None, m.mixer, m.resampler);
    let (m1, first) = m0.sender_added(None, m.mixer, m.resampler);
    assert forall|k: int| 0 <= k < names.len() implies !serves(
        m1.senders,
        Some(#[trigger] names[k]),
    ) by {
        assert(m1.senders.len() == 1 && m1.senders[0].destination is None);
    }
    lemma_senders_are_made(m1, names, m.resampler);
    lemma_names_are_registered(m1, names, m.resampler);
    let (m2, second) = m1.destinations_added(names, m.resampler);
    let ready = seq![OutputActionView::SendUpstream(FrameView::OutputTransportReady)];
    lemma_gathered_few(ready, run);
    lemma_gathered_few(ready, audio);
    lemma_gathered_few(ready, video);
    lemma_gathered_concat(first, second, run);
    lemma_gathered_concat(first, second, audio);
    lemma_gathered_concat(first, second, video);
    lemma_gathered_concat(first + second, ready, run);
    lemma_gathered_concat(first + second, ready, audio);
    lemma_gathered_concat(first + second, ready, video);
    let actions = m.made_ready().1;
    assert(gathered(actions, audio) =~= names);
    assert(gathered(actions, video) =~= names);
    assert(m2.senders.take(1)[0] == m1.senders[0]);
    assert forall|k: int| 0 <= k < names.len() implies ({
        let s = #[trigger] m2.senders[k + 1];
        &&& s.destination == Some(names[k])
        &&& s.config.has_mixer == m.mixers.contains(names[k])
        &&& s.config.has_resampler == m.resampler
        &&& s.config.sample_rate == m.sample_rate
        &&& s.config.audio_chunk_size == m.audio_chunk_size
        &&& s.audio_open && s.clock_open
    }) by {
        assert(m2.senders[1 + k] == m2.senders[m1.senders.len() + k]);
    }
}

} // verus!
