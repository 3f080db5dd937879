//! What holds of a media sender whatever is asked of it.
use vstd::prelude::*;

use crate::frames::{FrameView, ImageOf};
use crate::runs::{gathered, lemma_gathered_concat, lemma_gathered_few};
use crate::transport::audio_output::audio_of;
use crate::transport::media_sender::{
    given, SenderActionView, SenderConfig, SenderModel, VideoTask,
};

verus! {

/// What may be asked of a sender that was started.
pub enum SenderCall {
    Stop,
    Cancel,
    Interrupt { allowed: bool, was_speaking: bool },
    Audio { frame: FrameView, resampled: Option<Seq<u8>> },
    Image { frame: FrameView },
    Sync,
    Timed,
    Mixer,
}

impl SenderModel {
    /// The sender after a call, and what the call asks for.
    pub open spec fn called(self, call: SenderCall) -> (SenderModel, Seq<SenderActionView>) {
        match call {
            SenderCall::Stop => self.stopped(),
            SenderCall::Cancel => self.cancelled(),
            SenderCall::Interrupt { allowed, was_speaking } => self.interrupted(
                allowed,
                was_speaking,
            ),
            SenderCall::Audio { frame, resampled } => self.audio_arrived(frame, resampled),
            SenderCall::Image { frame } => self.image_arrived(frame),
            SenderCall::Sync => (self, given(self.audio_open, SenderActionView::QueueThis)),
            SenderCall::Timed => (self, given(self.clock_open, SenderActionView::QueueTimed)),
            SenderCall::Mixer => (
                self,
                given(self.config.has_mixer, SenderActionView::ControlMixer),
            ),
        }
    }

    /// The sender after a start and a run of calls, and all that they ask for.
    pub open spec fn lived(self, calls: Seq<SenderCall>) -> (SenderModel, Seq<SenderActionView>)
        decreases calls.len(),
    {
        if calls.len() == 0 {
            self.started()
        } else {
            let (s, actions) = self.lived(calls.drop_last());
            let (s, more) = s.called(calls.last());
            (s, actions + more)
        }
    }
}

/// The tasks that run for a sender.
pub struct Running {
    pub audio: bool,
    pub clock: bool,
    pub video: VideoTask,
}

impl Running {
    pub open spec fn nothing() -> Running {
        Running { audio: false, clock: false, video: VideoTask::Idle }
    }

    /// The tasks that run once an action was performed. There are none if the
    /// action is out of place: it runs a task beside one of its kind, ends one
    /// that does not run, or hands something to one that does not run.
    pub open spec fn performed(self, action: SenderActionView) -> Option<Running> {
        match action {
            SenderActionView::SpawnAudio => if self.audio {
                None
            } else {
                Some(Running { audio: true, ..self })
            },
            SenderActionView::SpawnClock => if self.clock {
                None
            } else {
                Some(Running { clock: true, ..self })
            },
            SenderActionView::SpawnVideo(task) => if self.video != VideoTask::Idle || task
                == VideoTask::Idle {
                None
            } else {
                Some(Running { video: task, ..self })
            },
            SenderActionView::FinishAudio { .. }
            | SenderActionView::CloseAudio { .. }
            | SenderActionView::AbortAudio => if self.audio {
                Some(Running { audio: false, ..self })
            } else {
                None
            },
            SenderActionView::FinishClock { .. }
            | SenderActionView::CloseClock { .. }
            | SenderActionView::AbortClock => if self.clock {
                Some(Running { clock: false, ..self })
            } else {
                None
            },
            SenderActionView::AbortVideo => if self.video != VideoTask::Idle {
                Some(Running { video: VideoTask::Idle, ..self })
            } else {
                None
            },
            SenderActionView::QueueAudio(_) | SenderActionView::QueueThis => if self.audio {
                Some(self)
            } else {
                None
            },
            SenderActionView::QueueTimed => if self.clock {
                Some(self)
            } else {
                None
            },
            SenderActionView::SendImage(_) => if self.video == VideoTask::Live {
                Some(self)
            } else {
                None
            },
            _ => Some(self),
        }
    }

    /// The tasks that run once a list of actions was performed, if none of them
    /// is out of place.
    pub open spec fn all_performed(self, actions: Seq<SenderActionView>) -> Option<Running>
        decreases actions.len(),
    {
        if actions.len() == 0 {
            Some(self)
        } else {
            match self.all_performed(actions.drop_last()) {
                Some(r) => r.performed(actions.last()),
                None => None,
            }
        }
    }
}

proof fn lemma_performed_concat(r: Running, a: Seq<SenderActionView>, b: Seq<SenderActionView>)
    ensures
        r.all_performed(a + b) == match r.all_performed(a) {
            Some(q) => q.all_performed(b),
            None => None,
        },
    decreases b.len(),
{
    if b.len() == 0 {
        assert(a + b =~= a);
    } else {
        assert((a + b).drop_last() =~= a + b.drop_last());
        lemma_performed_concat(r, a, b.drop_last());
    }
}

proof fn lemma_performed_given(r: Running, condition: bool, action: SenderActionView)
    ensures
        r.all_performed(given(condition, action)) == if condition {
            r.performed(action)
        } else {
            Some(r)
        },
{
    reveal_with_fuel(Running::all_performed, 2);
    if condition {
        assert(given(condition, action).drop_last() =~= Seq::empty());
    }
}

proof fn lemma_performed_queueing(r: Running, actions: Seq<SenderActionView>)
    requires
        r.audio,
        forall|i: int| 0 <= i < actions.len() ==> #[trigger] actions[i] is QueueAudio,
    ensures
        r.all_performed(actions) == Some(r),
    decreases actions.len(),
{
    if actions.len() > 0 {
        assert(actions[actions.len() - 1] is QueueAudio);
        let front = actions.drop_last();
        assert forall|i: int| 0 <= i < front.len() implies #[trigger] front[i] is QueueAudio by {
            assert(actions[i] is QueueAudio);
        }
        lemma_performed_queueing(r, front);
    }
}

/// The tasks that run where the sender's own record is right.
spec fn recorded(s: SenderModel) -> Running {
    Running { audio: s.audio_open, clock: s.clock_open, video: s.video }
}

proof fn lemma_spawning(s: SenderModel)
    requires
        recorded(s) == Running::nothing(),
    ensures
        recorded(s).all_performed(s.spawned().1) == Some(recorded(s.spawned().0)),
{
    let first = seq![SenderActionView::SpawnAudio, SenderActionView::SpawnClock];
    let r = recorded(s);
    assert(first =~= given(true, SenderActionView::SpawnAudio) + given(
        true,
        SenderActionView::SpawnClock,
    ));
    lemma_performed_given(r, true, SenderActionView::SpawnAudio);
    let r1 = r.performed(SenderActionView::SpawnAudio)->0;
    lemma_performed_given(r1, true, SenderActionView::SpawnClock);
    lemma_performed_concat(
        r,
        given(true, SenderActionView::SpawnAudio),
        given(true, SenderActionView::SpawnClock),
    );
    let r2 = r1.performed(SenderActionView::SpawnClock)->0;
    let last = SenderActionView::SpawnVideo(s.video_wanted());
    lemma_performed_given(r2, s.config.video_out_enabled, last);
    lemma_performed_concat(r, first, given(s.config.video_out_enabled, last));
}

/// Three actions that end tasks, each asked for where its task runs.
proof fn lemma_ending(
    s: SenderModel,
    audio: SenderActionView,
    clock: SenderActionView,
    rest: Seq<SenderActionView>,
)
    requires
        audio is FinishAudio || audio is CloseAudio || audio is AbortAudio,
        clock is FinishClock || clock is CloseClock || clock is AbortClock,
    ensures
        recorded(s).all_performed(
            given(s.audio_open, audio) + given(s.clock_open, clock) + given(
                s.video != VideoTask::Idle,
                SenderActionView::AbortVideo,
            ) + rest,
        ) == Running::nothing().all_performed(rest),
{
    let r = recorded(s);
    let a = given(s.audio_open, audio);
    let c = given(s.clock_open, clock);
    let v = given(s.video != VideoTask::Idle, SenderActionView::AbortVideo);
    lemma_performed_given(r, s.audio_open, audio);
    let r1 = r.all_performed(a)->0;
    lemma_performed_given(r1, s.clock_open, clock);
    lemma_performed_concat(r, a, c);
    let r2 = r1.all_performed(c)->0;
    lemma_performed_given(r2, s.video != VideoTask::Idle, SenderActionView::AbortVideo);
    lemma_performed_concat(r, a + c, v);
    lemma_performed_concat(r, a + c + v, rest);
}

proof fn lemma_call_is_in_place(s: SenderModel, call: SenderCall)
    ensures
        recorded(s).all_performed(s.called(call).1) == Some(recorded(s.called(call).0)),
{
    let r = recorded(s);
    match call {
        SenderCall::Stop => {
            let mixer = given(s.config.has_mixer, SenderActionView::StopMixer);
            lemma_ending(
                s,
                SenderActionView::FinishAudio { wait_secs: 5 },
                SenderActionView::FinishClock { pts: u64::MAX, wait_secs: 5 },
                mixer,
            );
            lemma_performed_given(
                Running::nothing(),
                s.config.has_mixer,
                SenderActionView::StopMixer,
            );
        },
        SenderCall::Cancel => {
            lemma_ending(
                s,
                SenderActionView::CloseAudio { wait_secs: 1 },
                SenderActionView::CloseClock { wait_secs: 1 },
                Seq::empty(),
            );
            assert(s.cancelled().1 + Seq::<SenderActionView>::empty() =~= s.cancelled().1);
        },
        SenderCall::Interrupt { allowed, was_speaking } => {
            if allowed {
                let blank = SenderModel { buffer: Seq::empty(), ..s.halted() };
                let told = given(was_speaking, SenderActionView::BroadcastBotStopped);
                lemma_ending(
                    s,
                    SenderActionView::AbortAudio,
                    SenderActionView::AbortClock,
                    told + blank.spawned().1,
                );
                lemma_performed_given(
                    Running::nothing(),
                    was_speaking,
                    SenderActionView::BroadcastBotStopped,
                );
                lemma_performed_concat(Running::nothing(), told, blank.spawned().1);
                lemma_spawning(blank);
                let ended = given(s.audio_open, SenderActionView::AbortAudio) + given(
                    s.clock_open,
                    SenderActionView::AbortClock,
                ) + given(s.video != VideoTask::Idle, SenderActionView::AbortVideo);
                assert(s.called(call).1 =~= ended + (told + blank.spawned().1));
            }
        },
        SenderCall::Audio { frame, resampled } => {
            if s.audio_open {
                lemma_performed_queueing(r, s.called(call).1);
            }
        },
        SenderCall::Image { frame } => {
            if let FrameView::OutputImageRaw(f) | FrameView::AssistantImageRaw(f) = frame {
                lemma_performed_given(
                    r,
                    s.video == VideoTask::Live,
                    SenderActionView::SendImage(f),
                );
            }
        },
        SenderCall::Sync => {
            lemma_performed_given(r, s.audio_open, SenderActionView::QueueThis);
        },
        SenderCall::Timed => {
            lemma_performed_given(r, s.clock_open, SenderActionView::QueueTimed);
        },
        SenderCall::Mixer => {
            lemma_performed_given(r, s.config.has_mixer, SenderActionView::ControlMixer);
        },
    }
}

/// From its start on, a sender never has two queues or video tasks of a kind:
/// over any run of calls no task is run beside one of its kind, none is ended
/// that does not run, and nothing is handed to one that does not run. What runs
/// is what the sender's own record says.
pub proof fn lemma_one_task_of_a_kind(
    destination: Option<Seq<char>>,
    config: SenderConfig,
    calls: Seq<SenderCall>,
)
    ensures
        ({
            let (s, actions) = SenderModel::fresh(destination, config).lived(calls);
            Running::nothing().all_performed(actions) == Some(
                Running { audio: s.audio_open, clock: s.clock_open, video: s.video },
            )
        }),
    decreases calls.len(),
{
    let blank = SenderModel::fresh(destination, config);
    if calls.len() == 0 {
        lemma_spawning(blank);
        let mixer = given(config.has_mixer, SenderActionView::StartMixer);
        lemma_performed_given(
            Running::nothing(),
            config.has_mixer,
            SenderActionView::StartMixer,
        );
        lemma_performed_concat(Running::nothing(), mixer, blank.spawned().1);
    } else {
        lemma_one_task_of_a_kind(destination, config, calls.drop_last());
        let (s, actions) = blank.lived(calls.drop_last());
        lemma_call_is_in_place(s, calls.last());
        lemma_performed_concat(Running::nothing(), actions, s.called(calls.last()).1);
    }
}

/// An interruption that is allowed aborts each task that runs, tells that the bot
/// stopped exactly where it spoke, and leaves both queues running, with a video
/// task where there is to be one. One that is not allowed does nothing.
pub proof fn lemma_interruption_aborts_what_runs(s: SenderModel, was_speaking: bool)
    ensures
        ({
            let (after, actions) = s.interrupted(true, was_speaking);
            &&& actions.contains(SenderActionView::AbortAudio) == s.audio_open
            &&& actions.contains(SenderActionView::AbortClock) == s.clock_open
            &&& actions.contains(SenderActionView::AbortVideo) == (s.video != VideoTask::Idle)
            &&& actions.contains(SenderActionView::BroadcastBotStopped) == was_speaking
            &&& actions.contains(SenderActionView::SpawnAudio)
            &&& actions.contains(SenderActionView::SpawnClock)
            &&& after.audio_open && after.clock_open
            &&& after.video == if !s.config.video_out_enabled {
                VideoTask::Idle
            } else if s.config.video_out_is_live {
                VideoTask::Live
            } else {
                VideoTask::Cycling
            }
            &&& after.buffer.len() == 0
            &&& after.images == s.images
            &&& after.config == s.config
            &&& after.destination == s.destination
        }),
        s.interrupted(false, was_speaking).0 == s,
        s.interrupted(false, was_speaking).1.len() == 0,
{
    let (after, actions) = s.interrupted(true, was_speaking);
    let a: int = if s.audio_open { 1 } else { 0 };
    let c: int = if s.clock_open { 1 } else { 0 };
    let v: int = if s.video != VideoTask::Idle { 1 } else { 0 };
    let b: int = if was_speaking { 1 } else { 0 };
    assert(s.audio_open ==> actions[0] == SenderActionView::AbortAudio);
    assert(s.clock_open ==> actions[a] == SenderActionView::AbortClock);
    assert(s.video != VideoTask::Idle ==> actions[a + c] == SenderActionView::AbortVideo);
    assert(was_speaking ==> actions[a + c + v] == SenderActionView::BroadcastBotStopped);
    assert(actions[a + c + v + b] == SenderActionView::SpawnAudio);
    assert(actions[a + c + v + b + 1] == SenderActionView::SpawnClock);
}

/// A stop lets each queue that runs drain, for five seconds at most, and a cancel
/// closes it, for one second at most; both end the video task, and only a stop
/// stops the mixer.
pub proof fn lemma_stop_and_cancel_end_what_runs(s: SenderModel)
    ensures
        ({
            let (after, actions) = s.stopped();
            &&& actions.contains(SenderActionView::FinishAudio { wait_secs: 5 }) == s.audio_open
            &&& actions.contains(
                SenderActionView::FinishClock { pts: u64::MAX, wait_secs: 5 },
            ) == s.clock_open
            &&& actions.contains(SenderActionView::AbortVideo) == (s.video != VideoTask::Idle)
            &&& actions.contains(SenderActionView::StopMixer) == s.config.has_mixer
            &&& !after.audio_open && !after.clock_open && after.video == VideoTask::Idle
            &&& after.buffer == s.buffer && after.images == s.images
        }),
        ({
            let (after, actions) = s.cancelled();
            &&& actions.contains(SenderActionView::CloseAudio { wait_secs: 1 }) == s.audio_open
            &&& actions.contains(SenderActionView::CloseClock { wait_secs: 1 }) == s.clock_open
            &&& actions.contains(SenderActionView::AbortVideo) == (s.video != VideoTask::Idle)
            &&& !actions.contains(SenderActionView::StopMixer)
            &&& !after.audio_open && !after.clock_open && after.video == VideoTask::Idle
            &&& after.buffer == s.buffer && after.images == s.images
        }),
{
    let a: int = if s.audio_open { 1 } else { 0 };
    let c: int = if s.clock_open { 1 } else { 0 };
    let v: int = if s.video != VideoTask::Idle { 1 } else { 0 };
    let stop = s.stopped().1;
    assert(s.audio_open ==> stop[0] == SenderActionView::FinishAudio { wait_secs: 5 });
    assert(s.clock_open ==> stop[a] == SenderActionView::FinishClock {
        pts: u64::MAX,
        wait_secs: 5,
    });
    assert(s.video != VideoTask::Idle ==> stop[a + c] == SenderActionView::AbortVideo);
    assert(s.config.has_mixer ==> stop[a + c + v] == SenderActionView::StopMixer);
    let cancel = s.cancelled().1;
    assert(s.audio_open ==> cancel[0] == SenderActionView::CloseAudio { wait_secs: 1 });
    assert(s.clock_open ==> cancel[a] == SenderActionView::CloseClock { wait_secs: 1 });
    assert(s.video != VideoTask::Idle ==> cancel[a + c] == SenderActionView::AbortVideo);
}

/// A start starts the mixer where there is one, before anything else, and the
/// video task that the configuration asks for.
pub proof fn lemma_start_starts_the_mixer(s: SenderModel)
    ensures
        ({
            let (after, actions) = s.started();
            &&& actions.contains(SenderActionView::StartMixer) == s.config.has_mixer
            &&& s.config.has_mixer ==> actions[0] == SenderActionView::StartMixer
            &&& actions.contains(SenderActionView::SpawnVideo(VideoTask::Live)) == (
            s.config.video_out_enabled && s.config.video_out_is_live)
            &&& actions.contains(SenderActionView::SpawnVideo(VideoTask::Cycling)) == (
            s.config.video_out_enabled && !s.config.video_out_is_live)
            &&& after.audio_open && after.clock_open
            &&& after.buffer == s.buffer && after.images == s.images
        }),
{
    let actions = s.started().1;
    let m: int = if s.config.has_mixer { 1 } else { 0 };
    assert(s.config.video_out_enabled ==> actions[m + 2] == SenderActionView::SpawnVideo(
        s.video_wanted(),
    ));
}

/// What a frame of audio puts in the queue is as the frame was: of its kind, with
/// its context and its channels, at the rate of the sender. Where the frame has
/// the sender's rate its own audio is added; where it has another, the resampled
/// audio if there is any.
pub proof fn lemma_chunks_are_like_their_frame(
    s: SenderModel,
    frame: FrameView,
    resampled: Option<Seq<u8>>,
    i: int,
)
    requires
        0 <= i < s.audio_arrived(frame, resampled).1.len(),
    ensures
        ({
            let action = s.audio_arrived(frame, resampled).1[i];
            match frame {
                FrameView::TTSAudioRaw(f) => action matches SenderActionView::QueueAudio(
                    FrameView::TTSAudioRaw(c),
                ) && c.context_id == f.context_id && c.num_channels == f.num_channels
                    && c.sample_rate == s.config.sample_rate,
                FrameView::SpeechOutputAudioRaw(f) => action matches SenderActionView::QueueAudio(
                    FrameView::SpeechOutputAudioRaw(c),
                ) && c.num_channels == f.num_channels && c.sample_rate == s.config.sample_rate,
                FrameView::OutputAudioRaw(f) => action matches SenderActionView::QueueAudio(
                    FrameView::OutputAudioRaw(c),
                ) && c.num_channels == f.num_channels && c.sample_rate == s.config.sample_rate,
                _ => false,
            }
        }),
        match frame {
            FrameView::TTSAudioRaw(f) => s.adapted(frame, resampled) == if f.sample_rate
                == s.config.sample_rate || resampled is None {
                f.audio
            } else {
                resampled->0
            },
            FrameView::SpeechOutputAudioRaw(f) => s.adapted(frame, resampled) == if f.sample_rate
                == s.config.sample_rate || resampled is None {
                f.audio
            } else {
                resampled->0
            },
            FrameView::OutputAudioRaw(f) => s.adapted(frame, resampled) == if f.sample_rate
                == s.config.sample_rate || resampled is None {
                f.audio
            } else {
                resampled->0
            },
            _ => false,
        },
{
    assert(audio_of(frame) is Some);
}

/// An image that is sent to the video task.
pub open spec fn image_sent(a: SenderActionView) -> Seq<ImageOf<Seq<char>, Seq<u8>>> {
    match a {
        SenderActionView::SendImage(i) => seq![i],
        _ => Seq::empty(),
    }
}

/// The image that a frame shows by itself.
pub open spec fn single_image(f: FrameView) -> Seq<ImageOf<Seq<char>, Seq<u8>>> {
    match f {
        FrameView::OutputImageRaw(i) => seq![i],
        FrameView::AssistantImageRaw(i) => seq![i],
        _ => Seq::empty(),
    }
}

/// The images that frames leave to be shown in turn, where `before` were shown.
pub open spec fn images_left(
    before: Seq<ImageOf<Seq<char>, Seq<u8>>>,
    frames: Seq<FrameView>,
    live: bool,
) -> Seq<ImageOf<Seq<char>, Seq<u8>>>
    decreases frames.len(),
{
    if frames.len() == 0 {
        before
    } else {
        match frames.last() {
            FrameView::Sprite(images) => images,
            FrameView::OutputImageRaw(i) if !live => seq![i],
            FrameView::AssistantImageRaw(i) if !live => seq![i],
            _ => images_left(before, frames.drop_last(), live),
        }
    }
}

impl SenderModel {
    /// The sender after a run of frames that may hold images.
    pub open spec fn all_images_arrived(self, frames: Seq<FrameView>) -> (
        SenderModel,
        Seq<SenderActionView>,
    )
        decreases frames.len(),
    {
        if frames.len() == 0 {
            (self, Seq::empty())
        } else {
            let (s, actions) = self.all_images_arrived(frames.drop_last());
            let (s, more) = s.image_arrived(frames.last());
            (s, actions + more)
        }
    }
}

/// A live video task gets the images of any run of frames, each once and in
/// order. What is shown in turn is what the last frame that says so left.
pub proof fn lemma_images_are_kept(s: SenderModel, frames: Seq<FrameView>)
    requires
        s.config.video_out_enabled,
        s.video == if s.config.video_out_is_live {
            VideoTask::Live
        } else {
            VideoTask::Cycling
        },
    ensures
        ({
            let (after, actions) = s.all_images_arrived(frames);
            &&& gathered(actions, |a: SenderActionView| image_sent(a))
                == if s.config.video_out_is_live {
                gathered(frames, |f: FrameView| single_image(f))
            } else {
                Seq::empty()
            }
            &&& after.images == images_left(s.images, frames, s.config.video_out_is_live)
            &&& after.config == s.config && after.video == s.video
        }),
    decreases frames.len(),
{
    if frames.len() > 0 {
        let front = frames.drop_last();
        lemma_images_are_kept(s, front);
        let (mid, actions) = s.all_images_arrived(front);
        let more = mid.image_arrived(frames.last()).1;
        let f = |a: SenderActionView| image_sent(a);
        lemma_gathered_concat(actions, more, f);
        lemma_gathered_few(more, f);
        assert(gathered(actions + more, f) =~= if s.config.video_out_is_live {
            gathered(frames, |f: FrameView| single_image(f))
        } else {
            Seq::empty()
        });
    }
}

} // verus!
