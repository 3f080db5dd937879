//! The base of output transports.
use bytes::Bytes;
use serde_json::Value;
use vstd::prelude::*;
use vstd::string::*;

use crate::frames::{
    clone_text_opt, text_opt, Direction, EnvelopeView, Frame, FrameEnvelope, FrameView, StartFrame,
};
use crate::json::{json_of, Json};
use crate::text::text_eq;
use crate::transport::audio_output::audio_of;
use crate::transport::media_sender::{
    opt_bytes, sender_actions_of, sender_config, given, MediaSender, SenderAction, SenderActionView,
    SenderModel,
};
use crate::transport::params::TransportParams;

verus! {

/// What an output transport asks the program to do.
#[derive(Debug)]
pub enum OutputAction {
    /// Push the frame at hand in the given direction.
    Forward(Direction),
    /// Carry out an action of the sender for a destination.
    Sender { destination: Option<String>, action: SenderAction },
    /// Send a transport message at once.
    SendMessage(Value),
    /// Write a keypad tone at once.
    WriteDtmf(u8),
    /// Register a named audio destination.
    RegisterAudioDestination(String),
    /// Register a named video destination.
    RegisterVideoDestination(String),
    /// Send a new frame upstream.
    SendUpstream(Frame),
}

/// What an [`OutputAction`] says.
pub enum OutputActionView {
    Forward(Direction),
    Sender { destination: Option<Seq<char>>, action: SenderActionView },
    SendMessage(Json),
    WriteDtmf(u8),
    RegisterAudioDestination(Seq<char>),
    RegisterVideoDestination(Seq<char>),
    SendUpstream(FrameView),
}

impl View for OutputAction {
    type V = OutputActionView;

    open spec fn view(&self) -> OutputActionView {
        match *self {
            OutputAction::Forward(d) => OutputActionView::Forward(d),
            OutputAction::Sender { destination, action } => OutputActionView::Sender {
                destination: text_opt(destination),
                action: action@,
            },
            OutputAction::SendMessage(m) => OutputActionView::SendMessage(json_of(m)),
            OutputAction::WriteDtmf(b) => OutputActionView::WriteDtmf(b),
            OutputAction::RegisterAudioDestination(d) => {
                OutputActionView::RegisterAudioDestination(d@)
            },
            OutputAction::RegisterVideoDestination(d) => {
                OutputActionView::RegisterVideoDestination(d@)
            },
            OutputAction::SendUpstream(f) => OutputActionView::SendUpstream(f@),
        }
    }
}

/// The actions in a list.
pub open spec fn output_actions_of(s: Seq<OutputAction>) -> Seq<OutputActionView> {
    s.map_values(|a: OutputAction| a@)
}

fn emit(list: &mut Vec<OutputAction>, a: OutputAction)
    ensures
        output_actions_of(final(list)@) == output_actions_of(old(list)@).push(a@),
{
    list.push(a);
    proof {
        assert(output_actions_of(list@) =~= output_actions_of(old(list)@).push(a@));
    }
}

/// Actions of the sender for a destination.
pub open spec fn of_sender(destination: Option<Seq<char>>, actions: Seq<SenderActionView>) -> Seq<
    OutputActionView,
> {
    actions.map_values(|action: SenderActionView| OutputActionView::Sender { destination, action })
}

/// Adds the actions of the sender for a destination.
fn emit_sender(
    list: &mut Vec<OutputAction>,
    destination: &Option<String>,
    actions: Vec<SenderAction>,
)
    ensures
        output_actions_of(final(list)@) == output_actions_of(old(list)@) + of_sender(
            text_opt(*destination),
            sender_actions_of(actions@),
        ),
{
    let ghost before = output_actions_of(list@);
    let ghost all = sender_actions_of(actions@);
    let ghost key = text_opt(*destination);
    for action in it: actions
        invariant
            sender_actions_of(it.seq()) == all,
            key == text_opt(*destination),
            output_actions_of(list@) == before + of_sender(key, all.take(it.index() as int)),
    {
        let ghost k = it.index() as int;
        let ghost said = action@;
        emit(list, OutputAction::Sender { destination: clone_text_opt(destination), action });
        proof {
            assert(said == all[k]);
            assert(all.take(k + 1) =~= all.take(k).push(all[k]));
            assert(output_actions_of(list@) =~= before + of_sender(key, all.take(k + 1)));
        }
    }
    proof {
        assert(all.take(all.len() as int) =~= all);
    }
}

/// What the program knows of a frame that an output transport is to process.
#[derive(Debug)]
pub struct FrameFacts {
    /// Whether the frame is a system frame.
    pub is_system: bool,
    /// The frame's audio at the sender's sample rate, where it was resampled.
    pub resampled: Option<Bytes>,
    /// Whether the sender for the frame's destination reports that the bot is
    /// speaking.
    pub bot_speaking: bool,
}

/// What a [`FrameFacts`] says.
pub struct FrameFactsView {
    pub is_system: bool,
    pub resampled: Option<Seq<u8>>,
    pub bot_speaking: bool,
}

impl View for FrameFacts {
    type V = FrameFactsView;

    open spec fn view(&self) -> FrameFactsView {
        FrameFactsView {
            is_system: self.is_system,
            resampled: opt_bytes(self.resampled),
            bot_speaking: self.bot_speaking,
        }
    }
}

/// The names in a list.
pub open spec fn names_of(s: Seq<String>) -> Seq<Seq<char>> {
    s.map_values(|n: String| n@)
}

/// A list of names without repetitions: of equal names the first one stays.
pub open spec fn without_repetitions(names: Seq<Seq<char>>) -> Seq<Seq<char>>
    decreases names.len(),
{
    if names.len() == 0 {
        Seq::empty()
    } else {
        let front = without_repetitions(names.drop_last());
        if front.contains(names.last()) {
            front
        } else {
            front.push(names.last())
        }
    }
}

/// The position of the sender for a destination among the first `n`.
pub open spec fn sender_at(
    senders: Seq<SenderModel>,
    destination: Option<Seq<char>>,
    n: nat,
) -> Option<int>
    decreases n,
{
    if n == 0 {
        None
    } else if senders[n - 1].destination == destination {
        Some(n - 1)
    } else {
        sender_at(senders, destination, (n - 1) as nat)
    }
}

/// The state of a [`BaseOutputTransport`].
pub struct OutputModel {
    pub name: Seq<char>,
    pub params: TransportParams,
    pub sample_rate: u32,
    pub audio_chunk_size: usize,
    pub allow_interruptions: bool,
    /// Whether the start frame has come.
    pub started: bool,
    /// Whether the resampler still has to be given to senders.
    pub resampler: bool,
    /// Whether the default mixer still has to be given to a sender.
    pub mixer: bool,
    /// The destinations whose mixers still have to be given to senders.
    pub mixers: Seq<Seq<char>>,
    /// The senders, the default one among them.
    pub senders: Seq<SenderModel>,
}

/// The chunk size of audio: as many bytes as the configured number of 10ms
/// chunks has.
pub open spec fn chunk_bytes(params: TransportParams, sample_rate: u32) -> int {
    (sample_rate as int / 100) * params.audio_out_channels as int * 2
        * params.audio_out_10ms_chunks as int
}

/// A set of senders with one more, in place of the one for its destination.
pub open spec fn with_sender(senders: Seq<SenderModel>, sender: SenderModel) -> Seq<SenderModel> {
    match sender_at(senders, sender.destination, senders.len()) {
        Some(i) => senders.update(i, sender),
        None => senders.push(sender),
    }
}

/// Stops all senders.
pub open spec fn stop_all(senders: Seq<SenderModel>) -> (Seq<SenderModel>, Seq<OutputActionView>)
    decreases senders.len(),
{
    if senders.len() == 0 {
        (Seq::empty(), Seq::empty())
    } else {
        let (front, actions) = stop_all(senders.drop_last());
        let (last, more) = senders.last().stopped();
        (front.push(last), actions + of_sender(senders.last().destination, more))
    }
}

/// Cancels all senders.
pub open spec fn cancel_all(senders: Seq<SenderModel>) -> (Seq<SenderModel>, Seq<OutputActionView>)
    decreases senders.len(),
{
    if senders.len() == 0 {
        (Seq::empty(), Seq::empty())
    } else {
        let (front, actions) = cancel_all(senders.drop_last());
        let (last, more) = senders.last().cancelled();
        (front.push(last), actions + of_sender(senders.last().destination, more))
    }
}

impl OutputModel {
    /// A transport that was just made.
    pub open spec fn fresh(name: Seq<char>, params: TransportParams) -> OutputModel {
        OutputModel {
            name,
            params,
            sample_rate: 0,
            audio_chunk_size: 0,
            allow_interruptions: false,
            started: false,
            resampler: params.audio_out_resampler,
            mixer: params.audio_out_mixer,
            mixers: names_of(params.audio_out_mixer_map@),
            senders: Seq::empty(),
        }
    }

    /// The position of the sender that serves a destination: its own, or else
    /// the default sender.
    pub open spec fn resolve(self, destination: Option<Seq<char>>) -> Option<int> {
        match sender_at(self.senders, destination, self.senders.len()) {
            Some(i) => Some(i),
            None => sender_at(self.senders, None, self.senders.len()),
        }
    }

    /// The start frame comes.
    pub open spec fn begun(self, frame: StartFrame) -> OutputModel {
        let sample_rate = match self.params.audio_out_sample_rate {
            Some(rate) => rate,
            None => frame.audio_out_sample_rate,
        };
        OutputModel {
            started: true,
            allow_interruptions: frame.allow_interruptions,
            sample_rate,
            audio_chunk_size: chunk_bytes(self.params, sample_rate) as usize,
            ..self
        }
    }

    /// One sender is made and started.
    pub open spec fn sender_added(
        self,
        destination: Option<Seq<char>>,
        has_mixer: bool,
        has_resampler: bool,
    ) -> (OutputModel, Seq<OutputActionView>) {
        let (sender, actions) = SenderModel::fresh(
            destination,
            sender_config(
                self.params,
                self.sample_rate,
                self.audio_chunk_size,
                has_mixer,
                has_resampler,
            ),
        ).started();
        (
            OutputModel { senders: with_sender(self.senders, sender), ..self },
            of_sender(destination, actions),
        )
    }

    /// A named destination is registered and given a sender, with its mixer if
    /// it has one.
    pub open spec fn destination_added(self, name: Seq<char>, has_resampler: bool) -> (
        OutputModel,
        Seq<OutputActionView>,
    ) {
        let (m, actions) = self.sender_added(
            Some(name),
            self.mixers.contains(name),
            has_resampler,
        );
        (
            OutputModel { mixers: self.mixers.filter(|n: Seq<char>| n != name), ..m },
            seq![
                OutputActionView::RegisterAudioDestination(name),
                OutputActionView::RegisterVideoDestination(name),
            ] + actions,
        )
    }

    /// All named destinations are registered and given senders.
    pub open spec fn destinations_added(self, names: Seq<Seq<char>>, has_resampler: bool) -> (
        OutputModel,
        Seq<OutputActionView>,
    )
        decreases names.len(),
    {
        if names.len() == 0 {
            (self, Seq::empty())
        } else {
            let (m, actions) = self.destinations_added(names.drop_last(), has_resampler);
            let (m, more) = m.destination_added(names.last(), has_resampler);
            (m, actions + more)
        }
    }

    /// The named destinations, each once.
    pub open spec fn destinations(self) -> Seq<Seq<char>> {
        without_repetitions(
            names_of(self.params.audio_out_destinations@) + names_of(
                self.params.video_out_destinations@,
            ),
        )
    }

    /// The transport is ready: senders are made for the default destination and
    /// for all named ones.
    pub open spec fn made_ready(self) -> (OutputModel, Seq<OutputActionView>) {
        if !self.started {
            (self, Seq::empty())
        } else {
            let m = OutputModel { resampler: false, mixer: false, ..self };
            let (m, first) = m.sender_added(None, self.mixer, self.resampler);
            let (m, second) = m.destinations_added(self.destinations(), self.resampler);
            (
                m,
                first + second + seq![
                    OutputActionView::SendUpstream(FrameView::OutputTransportReady),
                ],
            )
        }
    }

    /// The sender that serves a destination takes a step.
    pub open spec fn stepped(self, i: int, step: (SenderModel, Seq<SenderActionView>)) -> (
        OutputModel,
        Seq<OutputActionView>,
    ) {
        (
            OutputModel { senders: self.senders.update(i, step.0), ..self },
            of_sender(self.senders[i].destination, step.1),
        )
    }

    /// The sender that serves an envelope's destination takes a step, if there
    /// is one.
    pub open spec fn routed(
        self,
        e: EnvelopeView,
        step: spec_fn(SenderModel) -> (SenderModel, Seq<SenderActionView>),
    ) -> (OutputModel, Seq<OutputActionView>) {
        match self.resolve(e.transport_destination) {
            Some(i) => self.stepped(i, step(self.senders[i])),
            None => (self, Seq::empty()),
        }
    }

    /// Like `routed`; without a sender the frame is pushed on.
    pub open spec fn routed_or_forwarded(
        self,
        e: EnvelopeView,
        direction: Direction,
        step: spec_fn(SenderModel) -> (SenderModel, Seq<SenderActionView>),
    ) -> (OutputModel, Seq<OutputActionView>) {
        match self.resolve(e.transport_destination) {
            Some(i) => self.stepped(i, step(self.senders[i])),
            None => (self, seq![OutputActionView::Forward(direction)]),
        }
    }

    /// The transport after a frame, and what the frame calls for.
    pub open spec fn processed(
        self,
        e: EnvelopeView,
        direction: Direction,
        facts: FrameFactsView,
    ) -> (OutputModel, Seq<OutputActionView>) {
        let forward = seq![OutputActionView::Forward(direction)];
        let queue = |s: SenderModel| (s, given(s.audio_open, SenderActionView::QueueThis));
        match e.frame {
            FrameView::Start(frame) => (self.begun(frame), forward),
            FrameView::End => if self.started {
                let (senders, actions) = stop_all(self.senders);
                (OutputModel { senders, ..self }, actions + forward)
            } else {
                (self, forward)
            },
            FrameView::Cancel => {
                let (senders, actions) = cancel_all(self.senders);
                (OutputModel { senders, ..self }, actions + forward)
            },
            FrameView::Interruption => {
                let (m, actions) = self.routed(
                    e,
                    |s: SenderModel| s.interrupted(self.allow_interruptions, facts.bot_speaking),
                );
                (m, forward + actions)
            },
            FrameView::OutputTransportMessageUrgent { message } => (
                self,
                seq![OutputActionView::SendMessage(message)],
            ),
            FrameView::OutputDTMFUrgent { button } => (
                self,
                seq![OutputActionView::WriteDtmf(button)],
            ),
            FrameView::OutputDTMF { .. } | FrameView::TTSStopped { .. } => self.routed(e, queue),
            FrameView::OutputAudioRaw(_)
            | FrameView::TTSAudioRaw(_)
            | FrameView::SpeechOutputAudioRaw(_) => self.routed(
                e,
                |s: SenderModel| s.audio_arrived(e.frame, facts.resampled),
            ),
            FrameView::MixerUpdateSettings | FrameView::MixerEnable => self.routed(
                e,
                |s: SenderModel| (s, given(s.config.has_mixer, SenderActionView::ControlMixer)),
            ),
            FrameView::OutputImageRaw(_) | FrameView::Sprite(_) => self.routed(
                e,
                |s: SenderModel| s.image_arrived(e.frame),
            ),
            FrameView::AssistantImageRaw(_) => self.routed(
                e,
                |s: SenderModel|
                    {
                        let (t, actions) = s.image_arrived(e.frame);
                        (t, actions + given(t.audio_open, SenderActionView::QueueThis))
                    },
            ),
            _ => if direction == Direction::Upstream || facts.is_system {
                (self, forward)
            } else if e.pts is Some {
                self.routed_or_forwarded(
                    e,
                    direction,
                    |s: SenderModel| (s, given(s.clock_open, SenderActionView::QueueTimed)),
                )
            } else {
                self.routed_or_forwarded(e, direction, queue)
            },
        }
    }

    /// Whether the sender for an audio frame can take it: its chunk size is
    /// set, and its buffer does not outgrow memory.
    pub open spec fn can_take(self, e: EnvelopeView, facts: FrameFactsView) -> bool {
        audio_of(e.frame) is Some ==> match self.resolve(e.transport_destination) {
            Some(i) => {
                let s = self.senders[i];
                s.config.audio_out_enabled ==> s.config.audio_chunk_size > 0 && s.gathered(
                    e.frame,
                    facts.resampled,
                ).len() <= isize::MAX
            },
            None => true,
        }
    }

    /// Whether the chunk size that a start frame sets can be counted.
    pub open spec fn can_start(self, frame: FrameView) -> bool {
        match frame {
            FrameView::Start(start) => chunk_bytes(
                self.params,
                match self.params.audio_out_sample_rate {
                    Some(rate) => rate,
                    None => start.audio_out_sample_rate,
                },
            ) <= usize::MAX,
            _ => true,
        }
    }
}

proof fn lemma_sender_at(senders: Seq<SenderModel>, destination: Option<Seq<char>>, n: nat)
    requires
        n <= senders.len(),
    ensures
        match sender_at(senders, destination, n) {
            Some(i) => 0 <= i < n && senders[i].destination == destination,
            None => true,
        },
    decreases n,
{
    if n > 0 {
        lemma_sender_at(senders, destination, (n - 1) as nat);
    }
}

proof fn lemma_sender_at_same(
    a: Seq<SenderModel>,
    b: Seq<SenderModel>,
    destination: Option<Seq<char>>,
    n: nat,
)
    requires
        n <= a.len() == b.len(),
        forall|i: int| 0 <= i < a.len() ==> (#[trigger] a[i]).destination == b[i].destination,
    ensures
        sender_at(a, destination, n) == sender_at(b, destination, n),
    decreases n,
{
    if n > 0 {
        assert(a[n - 1].destination == b[n - 1].destination);
        lemma_sender_at_same(a, b, destination, (n - 1) as nat);
    }
}

/// Showing an assistant's image and queueing its frame is one step of the same
/// sender.
proof fn lemma_two_steps(pre: OutputModel, mid: OutputModel, e: EnvelopeView)
    requires
        match pre.resolve(e.transport_destination) {
            Some(i) => mid == pre.stepped(i, pre.senders[i].image_arrived(e.frame)).0,
            None => mid == pre,
        },
    ensures
        mid.resolve(e.transport_destination) == pre.resolve(e.transport_destination),
        pre.resolve(e.transport_destination) matches Some(i) ==> {
            let (t, shown) = pre.senders[i].image_arrived(e.frame);
            let queued = given(t.audio_open, SenderActionView::QueueThis);
            &&& 0 <= i < pre.senders.len()
            &&& mid.senders[i] == t
            &&& mid.stepped(i, (t, queued)).0 == mid
            &&& of_sender(t.destination, shown) + of_sender(t.destination, queued) == of_sender(
                t.destination,
                shown + queued,
            )
        },
{
    lemma_sender_at(pre.senders, e.transport_destination, pre.senders.len());
    lemma_sender_at(pre.senders, None, pre.senders.len());
    if let Some(i) = pre.resolve(e.transport_destination) {
        let (t, shown) = pre.senders[i].image_arrived(e.frame);
        let queued = given(t.audio_open, SenderActionView::QueueThis);
        lemma_sender_at_same(
            pre.senders,
            mid.senders,
            e.transport_destination,
            pre.senders.len(),
        );
        lemma_sender_at_same(pre.senders, mid.senders, None, pre.senders.len());
        assert(mid.senders.update(i, t) =~= mid.senders);
        assert(of_sender(t.destination, shown) + of_sender(t.destination, queued) =~= of_sender(
            t.destination,
            shown + queued,
        ));
    }
}

/// The senders in a list.
pub open spec fn senders_of(s: Seq<MediaSender>) -> Seq<SenderModel> {
    s.map_values(|m: MediaSender| m@)
}

/// Base output transport that receives audio/video from the pipeline and says
/// what is to be written to an external destination.
///
/// # Lifecycle
///
/// 1. The pipeline sends a start frame: sample rate and chunk size are set.
/// 2. `set_transport_ready()`: senders are made and started, and
///    `OutputTransportReady` goes upstream.
/// 3. Audio frames arrive: they are buffered, chunked and queued.
/// 4. An interruption: queues are restarted, buffers cleared.
/// 5. An end frame: trailing silence is sent, queues come to their end.
#[derive(Debug)]
pub struct BaseOutputTransport {
    name: String,
    params: TransportParams,
    sample_rate: u32,
    audio_chunk_size: usize,
    allow_interruptions: bool,
    started: bool,
    resampler: bool,
    mixer: bool,
    mixers: Vec<String>,
    media_senders: Vec<MediaSender>,
}

impl View for BaseOutputTransport {
    type V = OutputModel;

    closed spec fn view(&self) -> OutputModel {
        OutputModel {
            name: self.name@,
            params: self.params,
            sample_rate: self.sample_rate,
            audio_chunk_size: self.audio_chunk_size,
            allow_interruptions: self.allow_interruptions,
            started: self.started,
            resampler: self.resampler,
            mixer: self.mixer,
            mixers: names_of(self.mixers@),
            senders: senders_of(self.media_senders@),
        }
    }
}

/// Whether two optional texts are the same.
fn same_text_opt(a: &Option<String>, b: &Option<String>) -> (r: bool)
    ensures
        r == (text_opt(*a) == text_opt(*b)),
{
    match (a, b) {
        (Some(x), Some(y)) => text_eq(x.as_str(), y.as_str()),
        (None, None) => true,
        _ => false,
    }
}

/// Whether a list holds a name.
fn has_name(list: &Vec<String>, name: &str) -> (r: bool)
    ensures
        r == names_of(list@).contains(name@),
{
    let ghost names = names_of(list@);
    let mut i: usize = 0;
    while i < list.len()
        invariant
            i <= list@.len(),
            names == names_of(list@),
            forall|j: int| 0 <= j < i ==> names[j] != name@,
        decreases list@.len() - i,
    {
        if text_eq(list[i].as_str(), name) {
            assert(names[i as int] == name@);
            return true;
        }
        i = i + 1;
    }
    false
}

/// Copies names to a list, leaving out those that it holds already.
fn add_names(list: &mut Vec<String>, names: &Vec<String>, Ghost(before): Ghost<Seq<Seq<char>>>)
    requires
        names_of(old(list)@) == without_repetitions(before),
    ensures
        names_of(final(list)@) == without_repetitions(before + names_of(names@)),
{
    let ghost all = names_of(names@);
    proof {
        assert(before + all.take(0) =~= before);
    }
    let mut i: usize = 0;
    while i < names.len()
        invariant
            i <= names@.len(),
            all == names_of(names@),
            names_of(list@) == without_repetitions(before + all.take(i as int)),
        decreases names@.len() - i,
    {
        let ghost held = names_of(list@);
        if !has_name(list, names[i].as_str()) {
            list.push(names[i].clone());
            proof {
                assert(names_of(list@) =~= held.push(all[i as int]));
            }
        }
        proof {
            let longer = before + all.take(i + 1);
            assert(longer.drop_last() =~= before + all.take(i as int));
            assert(longer.last() == all[i as int]);
        }
        i = i + 1;
    }
    proof {
        assert(all.take(all.len() as int) =~= all);
    }
}

/// Removes all occurrences of a name from a list.
fn remove_name(list: &Vec<String>, name: &str) -> (r: Vec<String>)
    ensures
        names_of(r@) == names_of(list@).filter(|n: Seq<char>| n != name@),
{
    let ghost keep = |n: Seq<char>| n != name@;
    let ghost all = names_of(list@);
    let mut out: Vec<String> = Vec::new();
    proof {
        assert(names_of(out@) =~= all.take(0).filter(keep));
    }
    let mut i: usize = 0;
    while i < list.len()
        invariant
            i <= list@.len(),
            all == names_of(list@),
            keep == (|n: Seq<char>| n != name@),
            names_of(out@) == all.take(i as int).filter(keep),
        decreases list@.len() - i,
    {
        let ghost held = names_of(out@);
        proof {
            reveal(Seq::filter);
            assert(all.take(i + 1).drop_last() =~= all.take(i as int));
            assert(all.take(i + 1).last() == all[i as int]);
        }
        if !text_eq(list[i].as_str(), name) {
            out.push(list[i].clone());
            proof {
                assert(names_of(out@) =~= held.push(all[i as int]));
            }
        }
        i = i + 1;
    }
    proof {
        assert(all.take(all.len() as int) =~= all);
    }
    out
}

impl BaseOutputTransport {
    pub fn new(params: TransportParams) -> (r: Self)
        ensures
            r@ == OutputModel::fresh("BaseOutputTransport"@, params),
    {
        Self::with_name("BaseOutputTransport".to_owned(), params)
    }

    pub fn with_name(name: String, params: TransportParams) -> (r: Self)
        ensures
            r@ == OutputModel::fresh(name@, params),
    {
        let (resampler, mixer) = (params.audio_out_resampler, params.audio_out_mixer);
        let mut mixers: Vec<String> = Vec::new();
        let ghost all = names_of(params.audio_out_mixer_map@);
        let mut i: usize = 0;
        proof {
            assert(names_of(mixers@) =~= all.take(0));
        }
        while i < params.audio_out_mixer_map.len()
            invariant
                i <= params.audio_out_mixer_map@.len(),
                all == names_of(params.audio_out_mixer_map@),
                names_of(mixers@) == all.take(i as int),
            decreases params.audio_out_mixer_map@.len() - i,
        {
            let ghost held = names_of(mixers@);
            mixers.push(params.audio_out_mixer_map[i].clone());
            proof {
                assert(names_of(mixers@) =~= held.push(all[i as int]));
                assert(all.take(i + 1) =~= all.take(i as int).push(all[i as int]));
            }
            i = i + 1;
        }
        let media_senders: Vec<MediaSender> = Vec::new();
        proof {
            assert(all.take(all.len() as int) =~= all);
            assert(senders_of(media_senders@) =~= Seq::empty());
        }
        BaseOutputTransport {
            name,
            params,
            sample_rate: 0,
            audio_chunk_size: 0,
            allow_interruptions: false,
            started: false,
            resampler,
            mixer,
            mixers,
            media_senders,
        }
    }

    /// The name of the transport.
    pub fn name(&self) -> (r: &str)
        ensures
            r@ == self@.name,
    {
        self.name.as_str()
    }

    pub fn sample_rate(&self) -> (r: u32)
        ensures
            r == self@.sample_rate,
    {
        self.sample_rate
    }

    pub fn audio_chunk_size(&self) -> (r: usize)
        ensures
            r == self@.audio_chunk_size,
    {
        self.audio_chunk_size
    }

    /// The senders.
    pub fn senders(&self) -> (r: &Vec<MediaSender>)
        ensures
            senders_of(r@) == self@.senders,
    {
        &self.media_senders
    }

    /// The position of the sender for exactly a destination.
    fn find_sender(&self, dest: &Option<String>) -> (r: Option<usize>)
        ensures
            match r {
                Some(i) => sender_at(self@.senders, text_opt(*dest), self@.senders.len()) == Some(
                    i as int,
                ) && i < self.media_senders@.len(),
                None => sender_at(self@.senders, text_opt(*dest), self@.senders.len()) is None,
            },
    {
        let ghost all = self@.senders;
        let mut n: usize = self.media_senders.len();
        while n > 0
            invariant
                n <= self.media_senders@.len(),
                all == senders_of(self.media_senders@),
                sender_at(all, text_opt(*dest), all.len()) == sender_at(
                    all,
                    text_opt(*dest),
                    n as nat,
                ),
            decreases n,
        {
            if same_text_opt(self.media_senders[n - 1].destination(), dest) {
                return Some(n - 1);
            }
            n = n - 1;
        }
        None
    }

    /// Resolve a destination: if there is a sender for exactly this one use it,
    /// otherwise fall back to the default sender.
    pub fn resolve_dest_key(&self, dest: &Option<String>) -> (r: Option<usize>)
        ensures
            match r {
                Some(i) => self@.resolve(text_opt(*dest)) == Some(i as int) && i
                    < self@.senders.len(),
                None => self@.resolve(text_opt(*dest)) is None,
            },
    {
        match self.find_sender(dest) {
            Some(i) => Some(i),
            None => {
                let default: Option<String> = None;
                self.find_sender(&default)
            },
        }
    }

    /// Makes and starts one sender.
    fn add_sender(
        &mut self,
        destination: Option<String>,
        has_mixer: bool,
        has_resampler: bool,
        actions: &mut Vec<OutputAction>,
    )
        ensures
            ({
                let (m, more) = old(self)@.sender_added(
                    text_opt(destination),
                    has_mixer,
                    has_resampler,
                );
                &&& final(self)@ == m
                &&& output_actions_of(final(actions)@) == output_actions_of(old(actions)@) + more
            }),
    {
        let key = clone_text_opt(&destination);
        let mut sender = MediaSender::new(
            destination,
            self.sample_rate,
            self.audio_chunk_size,
            &self.params,
            has_mixer,
            has_resampler,
        );
        let started = sender.start();
        emit_sender(actions, &key, started);
        let ghost before = self@.senders;
        let ghost made = sender@;
        match self.find_sender(&key) {
            Some(i) => {
                self.media_senders.set(i, sender);
                proof {
                    assert(senders_of(self.media_senders@) =~= before.update(i as int, made));
                }
            },
            None => {
                self.media_senders.push(sender);
                proof {
                    assert(senders_of(self.media_senders@) =~= before.push(made));
                }
            },
        }
    }

    /// Signal that the output transport is ready.
    ///
    /// Makes and starts the senders, and sends `OutputTransportReady` upstream.
    /// Does nothing before the start frame has come.
    pub fn set_transport_ready(&mut self) -> (r: Vec<OutputAction>)
        ensures
            (final(self)@, output_actions_of(r@)) == old(self)@.made_ready(),
    {
        let mut actions: Vec<OutputAction> = Vec::new();
        proof {
            assert(output_actions_of(actions@) =~= Seq::empty());
        }
        if !self.started {
            return actions;
        }
        let (mixer, resampler) = (self.mixer, self.resampler);
        self.mixer = false;
        self.resampler = false;
        let ghost m0 = self@;
        self.add_sender(None, mixer, resampler, &mut actions);
        let ghost m1 = self@;
        let ghost first = output_actions_of(actions@);
        proof {
            assert(first =~= m0.sender_added(None, mixer, resampler).1);
        }
        let mut destinations: Vec<String> = Vec::new();
        proof {
            assert(names_of(destinations@) =~= Seq::empty());
        }
        add_names(
            &mut destinations,
            &self.params.audio_out_destinations,
            Ghost(Seq::<Seq<char>>::empty()),
        );
        proof {
            assert(Seq::<Seq<char>>::empty() + names_of(self.params.audio_out_destinations@)
                =~= names_of(self.params.audio_out_destinations@));
        }
        add_names(
            &mut destinations,
            &self.params.video_out_destinations,
            Ghost(names_of(self.params.audio_out_destinations@)),
        );
        let ghost names = names_of(destinations@);
        let mut i: usize = 0;
        proof {
            assert(names.take(0) =~= Seq::empty());
            assert(first + Seq::<OutputActionView>::empty() =~= first);
        }
        while i < destinations.len()
            invariant
                i <= destinations@.len(),
                names == names_of(destinations@),
                (self@, output_actions_of(actions@)) == ({
                    let (m, more) = m1.destinations_added(names.take(i as int), resampler);
                    (m, first + more)
                }),
            decreases destinations@.len() - i,
        {
            let ghost before = self@;
            let ghost so_far = output_actions_of(actions@);
            let ghost earlier = m1.destinations_added(names.take(i as int), resampler).1;
            let name: &String = &destinations[i];
            emit(&mut actions, OutputAction::RegisterAudioDestination(name.clone()));
            emit(&mut actions, OutputAction::RegisterVideoDestination(name.clone()));
            let has_mixer = has_name(&self.mixers, name.as_str());
            let ghost mid = output_actions_of(actions@);
            self.mixers = remove_name(&self.mixers, name.as_str());
            let ghost after_removal = self@;
            self.add_sender(Some(name.clone()), has_mixer, resampler, &mut actions);
            proof {
                let n = names[i as int];
                assert(n == name@);
                let (m, added) = before.sender_added(Some(n), has_mixer, resampler);
                assert(after_removal.sender_added(Some(n), has_mixer, resampler).1 == added);
                assert(self@ == before.destination_added(n, resampler).0);
                assert(output_actions_of(actions@) =~= so_far + before.destination_added(
                    n,
                    resampler,
                ).1);
                assert(names.take(i + 1).drop_last() =~= names.take(i as int));
                assert(names.take(i + 1).last() == n);
                assert((first + earlier) + before.destination_added(n, resampler).1 =~= first + (
                earlier + before.destination_added(n, resampler).1));
            }
            i = i + 1;
        }
        proof {
            assert(names.take(names.len() as int) =~= names);
        }
        emit(&mut actions, OutputAction::SendUpstream(Frame::OutputTransportReady));
        proof {
            assert(output_actions_of(actions@) =~= old(self)@.made_ready().1);
        }
        actions
    }

    /// The start frame comes.
    fn start(&mut self, frame: &StartFrame)
        requires
            old(self)@.can_start(FrameView::Start(*frame)),
        ensures
            final(self)@ == old(self)@.begun(*frame),
    {
        let rate: u32 = match self.params.audio_out_sample_rate {
            Some(rate) => rate,
            None => frame.audio_out_sample_rate,
        };
        self.started = true;
        self.allow_interruptions = frame.allow_interruptions;
        self.sample_rate = rate;
        let (tens, channels, count): (usize, usize, usize) = (
            rate as usize / 100,
            self.params.audio_out_channels as usize,
            self.params.audio_out_10ms_chunks as usize,
        );
        let ghost total = chunk_bytes(self.params, rate);
        if tens == 0 || channels == 0 || count == 0 {
            assert(total == 0) by (nonlinear_arith)
                requires
                    total == tens * channels * 2 * count,
                    tens == 0 || channels == 0 || count == 0,
            ;
            self.audio_chunk_size = 0;
            return;
        }
        assert(0 < tens * channels <= total && 0 < tens * channels * 2 <= total)
            by (nonlinear_arith)
            requires
                total == tens * channels * 2 * count,
                0 < tens,
                0 < channels,
                0 < count,
        ;
        let bytes_per_10ms: usize = tens * channels * 2;
        self.audio_chunk_size = bytes_per_10ms * count;
    }

    /// Stops all senders.
    fn stop(&mut self, actions: &mut Vec<OutputAction>)
        ensures
            ({
                let (senders, more) = stop_all(old(self)@.senders);
                &&& final(self)@ == OutputModel { senders, ..old(self)@ }
                &&& output_actions_of(final(actions)@) == output_actions_of(old(actions)@) + more
            }),
    {
        let ghost before = self.media_senders@;
        let ghost models = senders_of(before);
        let ghost first = output_actions_of(actions@);
        let mut i: usize = 0;
        proof {
            assert(senders_of(self.media_senders@.take(0)) =~= Seq::empty());
            assert(first + Seq::<OutputActionView>::empty() =~= first);
            assert(models.take(0) =~= Seq::empty());
        }
        while i < self.media_senders.len()
            invariant
                i <= self.media_senders@.len() == before.len(),
                models == senders_of(before),
                forall|j: int| i <= j < before.len() ==> self.media_senders@[j] == before[j],
                (senders_of(self.media_senders@.take(i as int)), output_actions_of(actions@)) == ({
                    let (senders, more) = stop_all(models.take(i as int));
                    (senders, first + more)
                }),
                self@ == (OutputModel { senders: self@.senders, ..old(self)@ }),
            decreases self.media_senders@.len() - i,
        {
            let ghost front = self.media_senders@.take(i as int);
            let ghost so_far = output_actions_of(actions@);
            let ghost earlier = stop_all(models.take(i as int)).1;
            let more = self.media_senders[i].stop();
            let ghost said = sender_actions_of(more@);
            emit_sender(actions, self.media_senders[i].destination(), more);
            i = i + 1;
            proof {
                assert(models.take(i as int).drop_last() =~= models.take(i - 1));
                assert(senders_of(self.media_senders@.take(i as int)) =~= senders_of(front).push(
                    self.media_senders@[i - 1]@,
                ));
                let d = models[i - 1].destination;
                assert((first + earlier) + of_sender(d, said) =~= first + (earlier + of_sender(
                    d,
                    said,
                )));
            }
        }
        proof {
            assert(models.take(models.len() as int) =~= models);
            assert(self.media_senders@.take(i as int) =~= self.media_senders@);
        }
    }

    /// Cancels all senders.
    fn cancel(&mut self, actions: &mut Vec<OutputAction>)
        ensures
            ({
                let (senders, more) = cancel_all(old(self)@.senders);
                &&& final(self)@ == OutputModel { senders, ..old(self)@ }
                &&& output_actions_of(final(actions)@) == output_actions_of(old(actions)@) + more
            }),
    {
        let ghost before = self.media_senders@;
        let ghost models = senders_of(before);
        let ghost first = output_actions_of(actions@);
        let mut i: usize = 0;
        proof {
            assert(senders_of(self.media_senders@.take(0)) =~= Seq::empty());
            assert(first + Seq::<OutputActionView>::empty() =~= first);
            assert(models.take(0) =~= Seq::empty());
        }
        while i < self.media_senders.len()
            invariant
                i <= self.media_senders@.len() == before.len(),
                models == senders_of(before),
                forall|j: int| i <= j < before.len() ==> self.media_senders@[j] == before[j],
                (senders_of(self.media_senders@.take(i as int)), output_actions_of(actions@)) == ({
                    let (senders, more) = cancel_all(models.take(i as int));
                    (senders, first + more)
                }),
                self@ == (OutputModel { senders: self@.senders, ..old(self)@ }),
            decreases self.media_senders@.len() - i,
        {
            let ghost front = self.media_senders@.take(i as int);
            let ghost earlier = cancel_all(models.take(i as int)).1;
            let more = self.media_senders[i].cancel();
            let ghost said = sender_actions_of(more@);
            emit_sender(actions, self.media_senders[i].destination(), more);
            i = i + 1;
            proof {
                assert(models.take(i as int).drop_last() =~= models.take(i - 1));
                assert(senders_of(self.media_senders@.take(i as int)) =~= senders_of(front).push(
                    self.media_senders@[i - 1]@,
                ));
                let d = models[i - 1].destination;
                assert((first + earlier) + of_sender(d, said) =~= first + (earlier + of_sender(
                    d,
                    said,
                )));
            }
        }
        proof {
            assert(models.take(models.len() as int) =~= models);
            assert(self.media_senders@.take(i as int) =~= self.media_senders@);
        }
    }

    /// The sender for a destination is interrupted.
    fn route_interruption(
        &mut self,
        dest: &Option<String>,
        bot_speaking: bool,
        actions: &mut Vec<OutputAction>,
    )
        ensures
            match old(self)@.resolve(text_opt(*dest)) {
                Some(i) => {
                    let (m, more) = old(self)@.stepped(i, old(self)@.senders[i].interrupted(
                        old(self)@.allow_interruptions,
                        bot_speaking,
                    ));
                    &&& final(self)@ == m
                    &&& output_actions_of(final(actions)@) == output_actions_of(old(actions)@)
                        + more
                },
                None => final(self)@ == old(self)@ && final(actions)@ == old(actions)@,
            },
    {
        let ghost pre = self@;
        if let Some(i) = self.resolve_dest_key(dest) {
            let allow = self.allow_interruptions;
            let more = self.media_senders[i].handle_interruptions(allow, bot_speaking);
            emit_sender(actions, self.media_senders[i].destination(), more);
            proof {
                assert(self@.senders =~= pre.senders.update(
                    i as int,
                    self.media_senders@[i as int]@,
                ));
            }
        }
    }

    /// Audio goes to the sender for a destination.
    fn route_audio(
        &mut self,
        dest: &Option<String>,
        frame: &Frame,
        resampled: Option<Bytes>,
        actions: &mut Vec<OutputAction>,
    )
        requires
            match old(self)@.resolve(text_opt(*dest)) {
                Some(i) => {
                    let s = old(self)@.senders[i];
                    s.config.audio_out_enabled && audio_of(frame@) is Some ==> {
                        &&& s.config.audio_chunk_size > 0
                        &&& s.gathered(frame@, opt_bytes(resampled)).len() <= isize::MAX
                    }
                },
                None => true,
            },
        ensures
            match old(self)@.resolve(text_opt(*dest)) {
                Some(i) => {
                    let (m, more) = old(self)@.stepped(i, old(self)@.senders[i].audio_arrived(
                        frame@,
                        opt_bytes(resampled),
                    ));
                    &&& final(self)@ == m
                    &&& output_actions_of(final(actions)@) == output_actions_of(old(actions)@)
                        + more
                },
                None => final(self)@ == old(self)@ && final(actions)@ == old(actions)@,
            },
    {
        let ghost pre = self@;
        if let Some(i) = self.resolve_dest_key(dest) {
            let more = self.media_senders[i].handle_audio_frame(frame, resampled);
            emit_sender(actions, self.media_senders[i].destination(), more);
            proof {
                assert(self@.senders =~= pre.senders.update(
                    i as int,
                    self.media_senders@[i as int]@,
                ));
            }
        }
    }

    /// An image goes to the sender for a destination.
    fn route_image(
        &mut self,
        dest: &Option<String>,
        frame: &Frame,
        actions: &mut Vec<OutputAction>,
    )
        ensures
            match old(self)@.resolve(text_opt(*dest)) {
                Some(i) => {
                    let (m, more) = old(self)@.stepped(i, old(self)@.senders[i].image_arrived(frame@));
                    &&& final(self)@ == m
                    &&& output_actions_of(final(actions)@) == output_actions_of(old(actions)@)
                        + more
                },
                None => final(self)@ == old(self)@ && final(actions)@ == old(actions)@,
            },
    {
        let ghost pre = self@;
        if let Some(i) = self.resolve_dest_key(dest) {
            let more = self.media_senders[i].handle_image_frame(frame);
            emit_sender(actions, self.media_senders[i].destination(), more);
            proof {
                assert(self@.senders =~= pre.senders.update(
                    i as int,
                    self.media_senders@[i as int]@,
                ));
            }
        }
    }

    /// A frame goes to the audio queue of the sender for a destination.
    fn route_queue(
        &mut self,
        dest: &Option<String>,
        actions: &mut Vec<OutputAction>,
    )
        ensures
            match old(self)@.resolve(text_opt(*dest)) {
                Some(i) => {
                    let (m, more) = old(self)@.stepped(i, (
                        old(self)@.senders[i],
                        given(
                            old(self)@.senders[i].audio_open,
                            SenderActionView::QueueThis,
                        ),
                    ));
                    &&& final(self)@ == m
                    &&& output_actions_of(final(actions)@) == output_actions_of(old(actions)@)
                        + more
                },
                None => final(self)@ == old(self)@ && final(actions)@ == old(actions)@,
            },
    {
        let ghost pre = self@;
        if let Some(i) = self.resolve_dest_key(dest) {
            let more = self.media_senders[i].enqueue_sync_frame();
            emit_sender(actions, self.media_senders[i].destination(), more);
            proof {
                assert(self@.senders =~= pre.senders.update(
                    i as int,
                    self.media_senders@[i as int]@,
                ));
            }
        }
    }

    /// A frame goes to the clock queue of the sender for a destination.
    fn route_timed(
        &mut self,
        dest: &Option<String>,
        actions: &mut Vec<OutputAction>,
    )
        ensures
            match old(self)@.resolve(text_opt(*dest)) {
                Some(i) => {
                    let (m, more) = old(self)@.stepped(i, (
                        old(self)@.senders[i],
                        given(
                            old(self)@.senders[i].clock_open,
                            SenderActionView::QueueTimed,
                        ),
                    ));
                    &&& final(self)@ == m
                    &&& output_actions_of(final(actions)@) == output_actions_of(old(actions)@)
                        + more
                },
                None => final(self)@ == old(self)@ && final(actions)@ == old(actions)@,
            },
    {
        let ghost pre = self@;
        if let Some(i) = self.resolve_dest_key(dest) {
            let more = self.media_senders[i].handle_timed_frame();
            emit_sender(actions, self.media_senders[i].destination(), more);
            proof {
                assert(self@.senders =~= pre.senders.update(
                    i as int,
                    self.media_senders@[i as int]@,
                ));
            }
        }
    }

    /// A frame goes to the mixer of the sender for a destination.
    fn route_mixer(
        &mut self,
        dest: &Option<String>,
        actions: &mut Vec<OutputAction>,
    )
        ensures
            match old(self)@.resolve(text_opt(*dest)) {
                Some(i) => {
                    let (m, more) = old(self)@.stepped(i, (
                        old(self)@.senders[i],
                        given(
                            old(self)@.senders[i].config.has_mixer,
                            SenderActionView::ControlMixer,
                        ),
                    ));
                    &&& final(self)@ == m
                    &&& output_actions_of(final(actions)@) == output_actions_of(old(actions)@)
                        + more
                },
                None => final(self)@ == old(self)@ && final(actions)@ == old(actions)@,
            },
    {
        let ghost pre = self@;
        if let Some(i) = self.resolve_dest_key(dest) {
            let more = self.media_senders[i].handle_mixer_control();
            emit_sender(actions, self.media_senders[i].destination(), more);
            proof {
                assert(self@.senders =~= pre.senders.update(
                    i as int,
                    self.media_senders@[i as int]@,
                ));
            }
        }
    }

    /// Whether a frame is pushed on before it is processed, so that a failure
    /// to push it leaves the transport as it was.
    pub fn forwards_first(frame: &Frame) -> (r: bool)
        ensures
            r == (frame@ is Start || frame@ is Interruption),
    {
        matches!(frame, Frame::Start(_) | Frame::Interruption)
    }

    /// Whether the transport can process a frame: the chunk size that a start
    /// frame sets can be counted, and audio can be cut into chunks.
    pub fn can_process(&self, envelope: &FrameEnvelope, facts: &FrameFacts) -> (r: bool)
        ensures
            r == (self@.can_start(envelope@.frame) && self@.can_take(envelope@, facts@)),
    {
        if let Frame::Start(frame) = &envelope.frame {
            let rate: u32 = match self.params.audio_out_sample_rate {
                Some(rate) => rate,
                None => frame.audio_out_sample_rate,
            };
            let (tens, channels, count): (u128, u128, u128) = (
                rate as u128 / 100,
                self.params.audio_out_channels as u128,
                self.params.audio_out_10ms_chunks as u128,
            );
            assert(0 <= tens * channels <= 0xFFFF_FFFF * 0xFFFF && 0 <= tens * channels * 2 * count
                <= 0xFFFF_FFFF * 0xFFFF * 2 * 0xFFFF_FFFF) by (nonlinear_arith)
                requires
                    0 <= tens <= 0xFFFF_FFFF,
                    0 <= channels <= 0xFFFF,
                    0 <= count <= 0xFFFF_FFFF,
            ;
            return tens * channels * 2 * count <= usize::MAX as u128;
        }
        match self.resolve_dest_key(&envelope.transport_destination) {
            Some(i) => self.media_senders[i].can_take(&envelope.frame, &facts.resampled),
            None => true,
        }
    }

    /// Processes a frame.
    pub fn process_frame(
        &mut self,
        envelope: &FrameEnvelope,
        direction: Direction,
        facts: FrameFacts,
    ) -> (r: Vec<OutputAction>)
        requires
            old(self)@.can_start(envelope@.frame),
            old(self)@.can_take(envelope@, facts@),
        ensures
            (final(self)@, output_actions_of(r@)) == old(self)@.processed(
                envelope@,
                direction,
                facts@,
            ),
    {
        let ghost pre = self@;
        let ghost e = envelope@;
        let ghost known = facts@;
        let mut actions: Vec<OutputAction> = Vec::new();
        proof {
            assert(output_actions_of(actions@) =~= Seq::empty());
        }
        match &envelope.frame {
            Frame::Start(frame) => {
                emit(&mut actions, OutputAction::Forward(direction));
                self.start(frame);
            },
            Frame::End => {
                if self.started {
                    self.stop(&mut actions);
                }
                emit(&mut actions, OutputAction::Forward(direction));
            },
            Frame::Cancel => {
                self.cancel(&mut actions);
                emit(&mut actions, OutputAction::Forward(direction));
            },
            Frame::Interruption => {
                emit(&mut actions, OutputAction::Forward(direction));
                self.route_interruption(
                    &envelope.transport_destination,
                    facts.bot_speaking,
                    &mut actions,
                );
            },
            Frame::OutputTransportMessageUrgent { message } => {
                emit(&mut actions, OutputAction::SendMessage(message.clone()));
            },
            Frame::OutputDTMFUrgent { button } => {
                emit(&mut actions, OutputAction::WriteDtmf(*button));
            },
            Frame::OutputAudioRaw(_) | Frame::TTSAudioRaw(_) | Frame::SpeechOutputAudioRaw(_) => {
                self.route_audio(
                    &envelope.transport_destination,
                    &envelope.frame,
                    facts.resampled,
                    &mut actions,
                );
            },
            Frame::MixerUpdateSettings | Frame::MixerEnable => {
                self.route_mixer(&envelope.transport_destination, &mut actions);
            },
            Frame::OutputImageRaw(_) | Frame::Sprite(_) => {
                self.route_image(&envelope.transport_destination, &envelope.frame, &mut actions);
            },
            Frame::AssistantImageRaw(_) => {
                self.route_image(&envelope.transport_destination, &envelope.frame, &mut actions);
                let ghost mid = self@;
                self.route_queue(&envelope.transport_destination, &mut actions);
                proof {
                    lemma_two_steps(pre, mid, e);
                }
            },
            Frame::OutputDTMF { .. } | Frame::TTSStopped { .. } => {
                self.route_queue(&envelope.transport_destination, &mut actions);
            },
            _ => {
                if direction == Direction::Upstream || facts.is_system || self.resolve_dest_key(
                    &envelope.transport_destination,
                ).is_none() {
                    emit(&mut actions, OutputAction::Forward(direction));
                } else if envelope.pts.is_some() {
                    self.route_timed(&envelope.transport_destination, &mut actions);
                } else {
                    self.route_queue(&envelope.transport_destination, &mut actions);
                }
            },
        }
        proof {
            assert(output_actions_of(actions@) =~= pre.processed(e, direction, known).1);
        }
        actions
    }
}

/// A frame for a destination that has no sender goes to the default sender.
pub proof fn lemma_unknown_destination_falls_back(m: OutputModel, destination: Option<Seq<char>>)
    requires
        sender_at(m.senders, destination, m.senders.len()) is None,
    ensures
        m.resolve(destination) == m.resolve(None),
{
}

proof fn lemma_sender_found(senders: Seq<SenderModel>, i: int, n: nat)
    requires
        0 <= i < n <= senders.len(),
    ensures
        sender_at(senders, senders[i].destination, n) is Some,
    decreases n,
{
    if i < n - 1 {
        lemma_sender_found(senders, i, (n - 1) as nat);
    }
}

proof fn lemma_with_sender(senders: Seq<SenderModel>, sender: SenderModel, d: Option<Seq<char>>)
    ensures
        sender_at(
            with_sender(senders, sender),
            sender.destination,
            with_sender(senders, sender).len(),
        ) is Some,
        sender_at(senders, d, senders.len()) is Some ==> sender_at(
            with_sender(senders, sender),
            d,
            with_sender(senders, sender).len(),
        ) is Some,
{
    let all = with_sender(senders, sender);
    lemma_sender_at(senders, sender.destination, senders.len());
    match sender_at(senders, sender.destination, senders.len()) {
        Some(i) => lemma_sender_found(all, i, all.len()),
        None => lemma_sender_found(all, all.len() - 1, all.len()),
    }
    lemma_sender_at(senders, d, senders.len());
    if let Some(j) = sender_at(senders, d, senders.len()) {
        assert(all[j].destination == d);
        lemma_sender_found(all, j, all.len());
    }
}

proof fn lemma_destinations_added(
    m: OutputModel,
    names: Seq<Seq<char>>,
    has_resampler: bool,
    d: Option<Seq<char>>,
)
    ensures
        sender_at(m.senders, d, m.senders.len()) is Some ==> {
            let s = m.destinations_added(names, has_resampler).0.senders;
            sender_at(s, d, s.len()) is Some
        },
        d is Some && names.contains(d->0) ==> {
            let s = m.destinations_added(names, has_resampler).0.senders;
            sender_at(s, d, s.len()) is Some
        },
    decreases names.len(),
{
    if names.len() > 0 {
        lemma_destinations_added(m, names.drop_last(), has_resampler, d);
        let mid = m.destinations_added(names.drop_last(), has_resampler).0;
        let sender = SenderModel::fresh(
            Some(names.last()),
            sender_config(
                mid.params,
                mid.sample_rate,
                mid.audio_chunk_size,
                mid.mixers.contains(names.last()),
                has_resampler,
            ),
        ).started().0;
        lemma_with_sender(mid.senders, sender, d);
        if d is Some && names.contains(d->0) && d->0 != names.last() {
            let i = choose|i: int| 0 <= i < names.len() && names[i] == d->0;
            assert(names.drop_last()[i] == d->0);
        }
    }
}

/// Once a started transport is ready there is a sender for the default
/// destination and one for each named destination, so that no frame goes
/// without a sender.
pub proof fn lemma_ready_transport_serves_all(m: OutputModel, destination: Option<Seq<char>>)
    requires
        m.started,
    ensures
        m.made_ready().0.resolve(destination) is Some,
        destination is Some && m.destinations().contains(destination->0) ==> sender_at(
            m.made_ready().0.senders,
            destination,
            m.made_ready().0.senders.len(),
        ) is Some,
{
    let m0 = OutputModel { resampler: false, mixer: false, ..m };
    let sender = SenderModel::fresh(
        None,
        sender_config(m0.params, m0.sample_rate, m0.audio_chunk_size, m.mixer, m.resampler),
    ).started().0;
    lemma_with_sender(m0.senders, sender, None);
    let m1 = m0.sender_added(None, m.mixer, m.resampler).0;
    lemma_destinations_added(m1, m.destinations(), m.resampler, None);
    lemma_destinations_added(m1, m.destinations(), m.resampler, destination);
}

} // verus!
