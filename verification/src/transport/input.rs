//! The base of input transports.
use bytes::Bytes;
use vstd::prelude::*;
use vstd::string::*;

use crate::frames::{
    AudioOf, AudioRawFrame, Direction, Frame, FrameEnvelope, FrameView, ImageRawFrame, StartFrame,
};
use crate::payload::bytes_as_slice;
use crate::transport::media_sender::opt_bytes;
use crate::transport::params::TransportParams;

verus! {

/// How long the audio queue waits for a frame once the first one has come: half
/// a second.
pub const AUDIO_INPUT_TIMEOUT: u64 = 500_000_000;

/// What an input transport asks the program to do.
#[derive(Debug, Clone, Copy, PartialEq, Eq, Structural)]
pub enum InputAction {
    /// Push the frame at hand in the given direction.
    Forward(Direction),
    /// Start the audio filter at a sample rate.
    StartFilter(u32),
    /// Stop the audio filter.
    StopFilter,
    /// Hand the frame at hand to the audio filter.
    ControlFilter,
    /// Run an audio queue, empty to begin with.
    SpawnAudio { passthrough: bool },
    /// Close the audio queue and wait for it, for so many seconds at most.
    CloseAudio { wait_secs: u64 },
}

/// A list with one action, or none.
pub open spec fn given_input(condition: bool, action: InputAction) -> Seq<InputAction> {
    if condition {
        seq![action]
    } else {
        Seq::empty()
    }
}

/// The state of a [`BaseInputTransport`].
pub struct InputModel {
    pub name: Seq<char>,
    pub params: TransportParams,
    pub sample_rate: u32,
    pub paused: bool,
    /// Whether the start frame has come.
    pub started: bool,
    /// Whether the audio queue is open.
    pub audio_open: bool,
    /// Whether the filter still has to be started.
    pub filter_waiting: bool,
    /// Whether the filter was started.
    pub filter: bool,
}

impl InputModel {
    /// A transport that was just made.
    pub open spec fn fresh(name: Seq<char>, params: TransportParams) -> InputModel {
        InputModel {
            name,
            params,
            sample_rate: 0,
            paused: false,
            started: false,
            audio_open: false,
            filter_waiting: params.audio_in_filter,
            filter: false,
        }
    }

    /// A new audio queue, where audio is wanted and the transport has started.
    pub open spec fn spawned(self) -> (InputModel, Seq<InputAction>) {
        if self.params.audio_in_enabled && self.started {
            (
                InputModel { audio_open: true, ..self },
                seq![InputAction::SpawnAudio { passthrough: self.params.audio_in_passthrough }],
            )
        } else {
            (self, Seq::empty())
        }
    }

    /// The audio queue is closed.
    pub open spec fn closed(self) -> (InputModel, Seq<InputAction>) {
        (
            InputModel { audio_open: false, ..self },
            given_input(self.audio_open, InputAction::CloseAudio { wait_secs: 1 }),
        )
    }

    /// The start frame comes.
    pub open spec fn begun(self, frame: StartFrame) -> (InputModel, Seq<InputAction>) {
        let sample_rate = match self.params.audio_in_sample_rate {
            Some(rate) => rate,
            None => frame.audio_in_sample_rate,
        };
        (
            InputModel {
                started: true,
                sample_rate,
                filter: self.filter || self.filter_waiting,
                filter_waiting: false,
                ..self
            },
            given_input(self.filter_waiting, InputAction::StartFilter(sample_rate)),
        )
    }

    /// The transport stops, or is cancelled.
    pub open spec fn ended(self) -> (InputModel, Seq<InputAction>) {
        let (m, actions) = self.closed();
        (m, actions + given_input(self.filter, InputAction::StopFilter))
    }

    /// The transport pauses. The audio queue is closed, and works off what waits
    /// in it; a new queue, empty to begin with, takes its place.
    pub open spec fn suspended(self) -> (InputModel, Seq<InputAction>) {
        let (m, first) = InputModel { paused: true, ..self }.closed();
        let (m, second) = m.spawned();
        (m, first + second)
    }

    /// The transport after a frame, and what the frame calls for.
    pub open spec fn processed(self, frame: FrameView, direction: Direction) -> (
        InputModel,
        Seq<InputAction>,
    ) {
        let forward = seq![InputAction::Forward(direction)];
        match frame {
            FrameView::Start(start) => {
                let (m, actions) = self.begun(start);
                (m, forward + actions)
            },
            FrameView::End => {
                let (m, actions) = self.ended();
                (m, forward + actions)
            },
            FrameView::Cancel => {
                let (m, actions) = self.ended();
                (m, actions + forward)
            },
            FrameView::Stop => {
                let (m, actions) = self.suspended();
                (m, forward + actions)
            },
            FrameView::FilterUpdateSettings | FrameView::FilterEnable => (
                self,
                given_input(self.filter, InputAction::ControlFilter) + forward,
            ),
            _ => (self, forward),
        }
    }
}

/// Base input transport that receives audio/video from an external source and
/// feeds it into the pipeline.
///
/// # Lifecycle
///
/// 1. The pipeline sends a start frame: the sample rate is set, the filter
///    started.
/// 2. `set_transport_ready()`: the audio queue is run.
/// 3. `push_audio_frame()`: audio is queued, filtered, and pushed downstream.
/// 4. An end or cancel frame: the audio queue is closed, the filter stopped.
#[derive(Debug)]
pub struct BaseInputTransport {
    name: String,
    params: TransportParams,
    sample_rate: u32,
    paused: bool,
    started: bool,
    audio_open: bool,
    filter_waiting: bool,
    filter: bool,
}

impl View for BaseInputTransport {
    type V = InputModel;

    closed spec fn view(&self) -> InputModel {
        InputModel {
            name: self.name@,
            params: self.params,
            sample_rate: self.sample_rate,
            paused: self.paused,
            started: self.started,
            audio_open: self.audio_open,
            filter_waiting: self.filter_waiting,
            filter: self.filter,
        }
    }
}

impl BaseInputTransport {
    pub fn new(params: TransportParams) -> (r: Self)
        ensures
            r@ == InputModel::fresh("BaseInputTransport"@, params),
    {
        Self::with_name("BaseInputTransport".to_owned(), params)
    }

    pub fn with_name(name: String, params: TransportParams) -> (r: Self)
        ensures
            r@ == InputModel::fresh(name@, params),
    {
        let filter_waiting = params.audio_in_filter;
        BaseInputTransport {
            name,
            params,
            sample_rate: 0,
            paused: false,
            started: false,
            audio_open: false,
            filter_waiting,
            filter: false,
        }
    }

    /// The name of the transport.
    pub fn name(&self) -> (r: &str)
        ensures
            r@ == self@.name,
    {
        self.name.as_str()
    }

    /// Current audio sample rate. Returns 0 before the start frame.
    pub fn sample_rate(&self) -> (r: u32)
        ensures
            r == self@.sample_rate,
    {
        self.sample_rate
    }

    /// Whether audio can be queued, that is, the audio queue is open.
    pub fn audio_in_sender(&self) -> (r: bool)
        ensures
            r == self@.audio_open,
    {
        self.audio_open
    }

    /// The number of input channels that the transport is configured for.
    pub fn channels(&self) -> (r: u16)
        ensures
            r == self@.params.audio_in_channels,
    {
        self.params.audio_in_channels
    }

    /// Audio arrives from the external source: returns it if it is to be
    /// queued.
    pub fn push_audio_frame(&self, frame: AudioRawFrame) -> (r: Option<AudioRawFrame>)
        ensures
            r == if self@.params.audio_in_enabled && !self@.paused && self@.audio_open {
                Some(frame)
            } else {
                None::<AudioRawFrame>
            },
    {
        if self.params.audio_in_enabled && !self.paused && self.audio_open {
            Some(frame)
        } else {
            None
        }
    }

    /// A video frame arrives from the external source: returns the frame to be
    /// sent downstream. Unlike audio, video goes downstream directly.
    pub fn push_video_frame(&self, frame: ImageRawFrame) -> (r: Option<Frame>)
        ensures
            r == if self@.params.video_in_enabled && !self@.paused && self@.started {
                Some(Frame::InputImageRaw(frame))
            } else {
                None::<Frame>
            },
    {
        if self.params.video_in_enabled && !self.paused && self.started {
            Some(Frame::InputImageRaw(frame))
        } else {
            None
        }
    }

    /// Signal that the transport is ready to stream: the audio queue is run.
    pub fn set_transport_ready(&mut self) -> (r: Vec<InputAction>)
        ensures
            (final(self)@, r@) == old(self)@.spawned(),
    {
        let mut actions: Vec<InputAction> = Vec::new();
        self.create_audio_task(&mut actions);
        proof {
            assert(actions@ =~= old(self)@.spawned().1);
        }
        actions
    }

    /// Enable or disable audio streaming at runtime.
    pub fn enable_audio_in_stream_on_start(&mut self, enabled: bool)
        ensures
            final(self)@ == (InputModel {
                params: TransportParams {
                    audio_in_stream_on_start: enabled,
                    ..old(self)@.params
                },
                ..old(self)@
            }),
    {
        self.params.audio_in_stream_on_start = enabled;
    }

    fn create_audio_task(&mut self, actions: &mut Vec<InputAction>)
        ensures
            final(self)@ == old(self)@.spawned().0,
            final(actions)@ == old(actions)@ + old(self)@.spawned().1,
    {
        if self.params.audio_in_enabled && self.started {
            self.audio_open = true;
            actions.push(
                InputAction::SpawnAudio { passthrough: self.params.audio_in_passthrough },
            );
        }
        proof {
            assert(actions@ =~= old(actions)@ + old(self)@.spawned().1);
        }
    }

    fn cancel_audio_task(&mut self, actions: &mut Vec<InputAction>)
        ensures
            final(self)@ == old(self)@.closed().0,
            final(actions)@ == old(actions)@ + old(self)@.closed().1,
    {
        if self.audio_open {
            actions.push(InputAction::CloseAudio { wait_secs: 1 });
        }
        self.audio_open = false;
        proof {
            assert(actions@ =~= old(actions)@ + old(self)@.closed().1);
        }
    }

    fn start(&mut self, frame: &StartFrame, actions: &mut Vec<InputAction>)
        ensures
            final(self)@ == old(self)@.begun(*frame).0,
            final(actions)@ == old(actions)@ + old(self)@.begun(*frame).1,
    {
        self.started = true;
        self.sample_rate = match self.params.audio_in_sample_rate {
            Some(rate) => rate,
            None => frame.audio_in_sample_rate,
        };
        if self.filter_waiting {
            actions.push(InputAction::StartFilter(self.sample_rate));
            self.filter = true;
            self.filter_waiting = false;
        }
        proof {
            assert(actions@ =~= old(actions)@ + old(self)@.begun(*frame).1);
        }
    }

    fn stop(&mut self, actions: &mut Vec<InputAction>)
        ensures
            final(self)@ == old(self)@.ended().0,
            final(actions)@ == old(actions)@ + old(self)@.ended().1,
    {
        self.cancel_audio_task(actions);
        if self.filter {
            actions.push(InputAction::StopFilter);
        }
        proof {
            assert(actions@ =~= old(actions)@ + old(self)@.ended().1);
        }
    }

    fn pause(&mut self, actions: &mut Vec<InputAction>)
        ensures
            final(self)@ == old(self)@.suspended().0,
            final(actions)@ == old(actions)@ + old(self)@.suspended().1,
    {
        self.paused = true;
        // Close and run the audio queue again, to clear it.
        self.cancel_audio_task(actions);
        self.create_audio_task(actions);
        proof {
            assert(actions@ =~= old(actions)@ + old(self)@.suspended().1);
        }
    }

    /// Whether a frame is pushed on before it is processed, so that a failure
    /// to push it leaves the transport as it was.
    pub fn forwards_first(frame: &Frame) -> (r: bool)
        ensures
            r == (frame@ is Start || frame@ is End || frame@ is Stop),
    {
        matches!(frame, Frame::Start(_) | Frame::End | Frame::Stop)
    }

    /// Processes a frame.
    pub fn process_frame(&mut self, envelope: &FrameEnvelope, direction: Direction) -> (r: Vec<
        InputAction,
    >)
        ensures
            (final(self)@, r@) == old(self)@.processed(envelope@.frame, direction),
    {
        let mut actions: Vec<InputAction> = Vec::new();
        match &envelope.frame {
            Frame::Start(frame) => {
                actions.push(InputAction::Forward(direction));
                self.start(frame, &mut actions);
            },
            Frame::End => {
                actions.push(InputAction::Forward(direction));
                self.stop(&mut actions);
            },
            Frame::Cancel => {
                self.stop(&mut actions);
                actions.push(InputAction::Forward(direction));
            },
            Frame::Stop => {
                actions.push(InputAction::Forward(direction));
                self.pause(&mut actions);
            },
            Frame::FilterUpdateSettings | Frame::FilterEnable => {
                if self.filter {
                    actions.push(InputAction::ControlFilter);
                }
                // Other processors with filters get the frame too.
                actions.push(InputAction::Forward(direction));
            },
            _ => {
                actions.push(InputAction::Forward(direction));
            },
        }
        proof {
            assert(actions@ =~= old(self)@.processed(envelope@.frame, direction).1);
        }
        actions
    }
}

/// The audio queue of an input transport.
///
/// Takes the queued audio frame by frame, and says what goes downstream.
#[derive(Debug)]
pub struct AudioInput {
    received_first: bool,
    passthrough: bool,
}

impl AudioInput {
    /// Whether a frame has come.
    pub closed spec fn received(&self) -> bool {
        self.received_first
    }

    /// Whether audio is passed downstream.
    pub closed spec fn passes(&self) -> bool {
        self.passthrough
    }

    pub fn new(passthrough: bool) -> (r: Self)
        ensures
            !r.received(),
            r.passes() == passthrough,
    {
        AudioInput { received_first: false, passthrough }
    }

    /// How long to wait for a frame before looking again: for the first one,
    /// without a limit.
    pub fn timeout(&self) -> (r: Option<u64>)
        ensures
            r == if self.received() {
                Some(AUDIO_INPUT_TIMEOUT)
            } else {
                None::<u64>
            },
    {
        if self.received_first {
            Some(AUDIO_INPUT_TIMEOUT)
        } else {
            None
        }
    }

    /// Takes a frame, with what the filter made of its audio where there is a
    /// filter. While the filter gives nothing, nothing goes downstream.
    pub fn on_frame(&mut self, frame: AudioRawFrame, filtered: Option<Bytes>) -> (r: Option<Frame>)
        ensures
            final(self).received(),
            final(self).passes() == old(self).passes(),
            ({
                let audio = match opt_bytes(filtered) {
                    Some(data) => data,
                    None => frame@.audio,
                };
                if old(self).passes() && !(filtered is Some && audio.len() == 0) {
                    r is Some && r->0@ == FrameView::InputAudioRaw(AudioOf { audio, ..frame@ })
                } else {
                    r is None
                }
            }),
    {
        self.received_first = true;
        let mut frame = frame;
        if let Some(data) = filtered {
            if bytes_as_slice(&data).len() == 0 {
                return None;
            }
            frame = AudioOf {
                audio: data,
                sample_rate: frame.sample_rate,
                num_channels: frame.num_channels,
            };
        }
        if self.passthrough {
            Some(Frame::InputAudioRaw(frame))
        } else {
            None
        }
    }
}

/// A paused transport takes no media, and stays paused whatever frame comes.
pub proof fn lemma_pause_is_final(m: InputModel, frame: FrameView, direction: Direction)
    requires
        m.paused,
    ensures
        m.processed(frame, direction).0.paused,
{
}

/// Every frame is pushed on exactly once, in the direction it travels.
pub proof fn lemma_every_frame_is_forwarded(m: InputModel, frame: FrameView, direction: Direction)
    ensures
        exists|i: int|
            0 <= i < m.processed(frame, direction).1.len() && #[trigger] m.processed(
                frame,
                direction,
            ).1[i] == InputAction::Forward(direction) && forall|j: int|
                0 <= j < m.processed(frame, direction).1.len() && j != i ==> !((
                #[trigger] m.processed(frame, direction).1[j]) is Forward),
{
    let all = m.processed(frame, direction).1;
    let i: int = match frame {
        FrameView::Cancel => all.len() - 1,
        FrameView::FilterUpdateSettings | FrameView::FilterEnable => all.len() - 1,
        _ => 0,
    };
    assert(all[i] == InputAction::Forward(direction));
}

} // verus!
