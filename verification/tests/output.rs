//! The output transport.
use bytes::Bytes;
use pipecat::frames::{
    AudioRawFrame, Direction, Frame, FrameEnvelope, ImageRawFrame, StartFrame, TTSAudioRawFrame,
    TranscriptionFrame,
};
use pipecat::transport::audio_output::{
    extract_audio, AudioOutput, AudioOutputAction, AudioOutputConfig, BotSpeakingState,
};
use pipecat::transport::clock::ClockQueue;
use pipecat::transport::image::{maybe_resize_image, resize_image_if_needed};
use pipecat::transport::media_sender::{SenderAction, VideoTask};
use pipecat::transport::output::{BaseOutputTransport, FrameFacts, OutputAction};
use pipecat::transport::params::TransportParams;
use pipecat::transport::pcm::is_silence;
use pipecat::transport::video::{ImageCycle, LivePacer};
use serde_json::Value;

const MS: u64 = 1_000_000;

fn envelope(frame: Frame) -> FrameEnvelope {
    FrameEnvelope { id: 1, pts: None, transport_destination: None, frame }
}

fn start_frame(rate: u32) -> Frame {
    Frame::Start(StartFrame {
        audio_in_sample_rate: 16000,
        audio_out_sample_rate: rate,
        allow_interruptions: true,
        enable_metrics: false,
        enable_usage_metrics: false,
        report_only_initial_ttfb: false,
    })
}

fn kind(frame: &Frame) -> String {
    format!("{frame:?}").chars().take_while(|c| c.is_alphanumeric()).collect()
}

/// A transport whose queues are worked off at once.
struct Rig {
    transport: BaseOutputTransport,
    audio: Option<AudioOutput>,
    clock: Option<ClockQueue>,
    video: VideoTask,
    cycle: ImageCycle,
    write_result: bool,
    downstream: Vec<String>,
    upstream: Vec<String>,
    written_audio: Vec<Bytes>,
    written_video: Vec<ImageRawFrame>,
    messages: Vec<Value>,
    registered: Vec<String>,
    now: u64,
}

impl Rig {
    fn new(params: TransportParams) -> Rig {
        Rig {
            transport: BaseOutputTransport::new(params),
            audio: None,
            clock: None,
            video: VideoTask::Idle,
            cycle: ImageCycle::new(),
            write_result: true,
            downstream: Vec::new(),
            upstream: Vec::new(),
            written_audio: Vec::new(),
            written_video: Vec::new(),
            messages: Vec::new(),
            registered: Vec::new(),
            now: 0,
        }
    }

    fn started(params: TransportParams) -> Rig {
        let mut rig = Rig::new(params);
        rig.send(envelope(start_frame(16000)));
        rig.ready();
        rig
    }

    fn send(&mut self, envelope: FrameEnvelope) {
        let facts = FrameFacts {
            is_system: matches!(envelope.frame, Frame::Start(_) | Frame::Cancel | Frame::Interruption),
            resampled: None,
            bot_speaking: self.audio.as_ref().is_some_and(|a| a.bot_speaking()),
        };
        let actions = self.transport.process_frame(&envelope, Direction::Downstream, facts);
        let mut at_hand = Some(envelope);
        for action in actions {
            self.perform(action, &mut at_hand);
        }
    }

    fn ready(&mut self) {
        for action in self.transport.set_transport_ready() {
            self.perform(action, &mut None);
        }
    }

    fn perform(&mut self, action: OutputAction, at_hand: &mut Option<FrameEnvelope>) {
        match action {
            OutputAction::Forward(Direction::Downstream) => {
                self.downstream.push(kind(&at_hand.take().unwrap().frame));
            }
            OutputAction::Forward(Direction::Upstream) => {
                self.upstream.push(kind(&at_hand.take().unwrap().frame));
            }
            OutputAction::Sender { destination: _, action } => self.perform_sender(action, at_hand),
            OutputAction::SendMessage(v) => self.messages.push(v),
            OutputAction::RegisterAudioDestination(d) => self.registered.push(format!("audio {d}")),
            OutputAction::RegisterVideoDestination(d) => self.registered.push(format!("video {d}")),
            OutputAction::SendUpstream(f) => self.upstream.push(kind(&f)),
            OutputAction::WriteDtmf(_) => {}
        }
    }

    fn perform_sender(&mut self, action: SenderAction, at_hand: &mut Option<FrameEnvelope>) {
        match action {
            SenderAction::SpawnAudio => {
                let config = self.transport.senders()[0].audio_config();
                self.audio = Some(AudioOutput::new(config, self.now));
            }
            SenderAction::SpawnClock => self.clock = Some(ClockQueue::new(self.now)),
            SenderAction::SpawnVideo(task) => self.video = task,
            SenderAction::FinishAudio { .. } => {
                self.play(envelope(Frame::End));
                assert!(self.audio.as_ref().unwrap().is_done());
                self.audio = None;
            }
            SenderAction::FinishClock { pts, .. } => {
                let mut end = envelope(Frame::End);
                end.pts = Some(pts);
                let clock = self.clock.as_mut().unwrap();
                clock.receive(end);
                clock.deliver_due(u64::MAX);
                assert!(clock.is_done());
                self.clock = None;
            }
            SenderAction::CloseAudio { .. } | SenderAction::AbortAudio => self.audio = None,
            SenderAction::CloseClock { .. } | SenderAction::AbortClock => self.clock = None,
            SenderAction::AbortVideo => self.video = VideoTask::Idle,
            SenderAction::BroadcastBotStopped => {
                self.downstream.push("BotStoppedSpeaking".into());
                self.upstream.push("BotStoppedSpeaking".into());
            }
            SenderAction::QueueAudio(frame) => self.play(envelope(frame)),
            SenderAction::QueueThis => {
                let e = at_hand.take().unwrap();
                self.play(e);
            }
            SenderAction::QueueTimed => {
                let clock = self.clock.as_mut().unwrap();
                let mut out = clock.receive(at_hand.take().unwrap());
                out.extend(clock.deliver_due(self.now));
                for e in out {
                    self.downstream.push(kind(&e.frame));
                }
            }
            SenderAction::SendImage(image) => {
                self.written_video.push(maybe_resize_image(image, 1024, 768));
            }
            SenderAction::StartMixer | SenderAction::StopMixer | SenderAction::ControlMixer => {}
        }
    }

    fn play(&mut self, envelope: FrameEnvelope) {
        let audio = self.audio.as_mut().unwrap();
        let mut queue = audio.on_frame(&envelope, self.now);
        queue.reverse();
        while let Some(action) = queue.pop() {
            match action {
                AudioOutputAction::Broadcast(f) => {
                    self.downstream.push(kind(&f));
                    self.upstream.push(kind(&f));
                }
                AudioOutputAction::SendDownstream(f) => self.downstream.push(kind(&f)),
                AudioOutputAction::WriteAudio(a) => self.written_audio.push(a.audio),
                AudioOutputAction::PlayAudio(a) => {
                    self.written_audio.push(a.audio);
                    queue.extend(self.audio.as_ref().unwrap().on_played(self.write_result));
                }
                AudioOutputAction::Forward => self.downstream.push(kind(&envelope.frame)),
                AudioOutputAction::SendMessage(v) => self.messages.push(v),
                AudioOutputAction::WriteDtmf(_)
                | AudioOutputAction::WriteTransportFrame
                | AudioOutputAction::Exit => {}
            }
        }
    }

    /// The cycling task shows so many images.
    fn show(&mut self, n: usize) {
        if self.video == VideoTask::Cycling {
            for _ in 0..n {
                if let Some(image) = self.cycle.next_image(self.transport.senders()[0].images()) {
                    self.written_video.push(maybe_resize_image(image, 1024, 768));
                }
            }
        }
    }

    fn downstream_count(&self, name: &str) -> usize {
        self.downstream.iter().filter(|f| *f == name).count()
    }

    fn upstream_count(&self, name: &str) -> usize {
        self.upstream.iter().filter(|f| *f == name).count()
    }
}

fn audio_params() -> TransportParams {
    TransportParams {
        audio_out_enabled: true,
        audio_out_channels: 1,
        audio_out_10ms_chunks: 1,
        ..TransportParams::default()
    }
}

fn samples_to_bytes(samples: &[i16]) -> Vec<u8> {
    samples.iter().flat_map(|s| s.to_le_bytes()).collect()
}

fn make_output_audio(samples: &[i16], sample_rate: u32) -> Frame {
    Frame::OutputAudioRaw(AudioRawFrame {
        audio: Bytes::from(samples_to_bytes(samples)),
        sample_rate,
        num_channels: 1,
    })
}

fn make_tts_audio(samples: &[i16], sample_rate: u32) -> Frame {
    Frame::TTSAudioRaw(TTSAudioRawFrame {
        audio: Bytes::from(samples_to_bytes(samples)),
        sample_rate,
        num_channels: 1,
        context_id: None,
    })
}

#[test]
fn start_frame_sets_sample_rate_and_chunk_size() {
    let mut rig = Rig::new(TransportParams {
        audio_out_enabled: true,
        audio_out_channels: 1,
        audio_out_10ms_chunks: 4,
        ..TransportParams::default()
    });
    rig.send(envelope(start_frame(24000)));
    assert_eq!(rig.transport.sample_rate(), 24000);
    // 24000/100 * 1 * 2 * 4 = 1920
    assert_eq!(rig.transport.audio_chunk_size(), 1920);
    assert_eq!(rig.downstream, vec!["Start"]);
}

#[test]
fn output_params_sample_rate_overrides_start_frame() {
    let mut rig = Rig::new(TransportParams {
        audio_out_enabled: true,
        audio_out_sample_rate: Some(48000),
        audio_out_channels: 1,
        audio_out_10ms_chunks: 2,
        ..TransportParams::default()
    });
    rig.send(envelope(start_frame(24000)));
    assert_eq!(rig.transport.sample_rate(), 48000);
    // 48000/100 * 1 * 2 * 2 = 1920
    assert_eq!(rig.transport.audio_chunk_size(), 1920);
}

#[test]
fn output_lifecycle_frames_forwarded() {
    let mut rig = Rig::new(TransportParams::default());
    rig.send(envelope(start_frame(24000)));
    rig.send(envelope(Frame::End));
    assert_eq!(rig.downstream, vec!["Start", "End"]);
}

#[test]
fn audio_chunking_and_write_callback() {
    let mut rig = Rig::started(audio_params());
    assert_eq!(rig.transport.audio_chunk_size(), 320);
    let samples: Vec<i16> = (0..320).collect();
    rig.send(envelope(make_output_audio(&samples, 16000)));
    assert_eq!(rig.written_audio.len(), 2);
    assert_eq!(rig.written_audio[0].len(), 320);
    assert_eq!(rig.written_audio[1].len(), 320);
    assert_eq!(rig.written_audio.concat(), samples_to_bytes(&samples));
    assert_eq!(rig.downstream_count("OutputAudioRaw"), 2);
}

#[test]
fn failed_writes_are_not_pushed_on() {
    let mut rig = Rig::started(audio_params());
    rig.write_result = false;
    rig.send(envelope(make_output_audio(&[1; 160], 16000)));
    assert_eq!(rig.written_audio.len(), 1);
    assert_eq!(rig.downstream_count("OutputAudioRaw"), 0);
}

#[test]
fn short_audio_waits_for_a_chunk() {
    let mut rig = Rig::started(audio_params());
    rig.send(envelope(make_output_audio(&[1; 100], 16000)));
    assert!(rig.written_audio.is_empty());
    rig.send(envelope(make_output_audio(&[2; 100], 16000)));
    assert_eq!(rig.written_audio.len(), 1);
    assert_eq!(&rig.written_audio[0][198..202], &[1, 0, 2, 0]);
}

#[test]
fn runs_of_audio_lose_nothing() {
    let mut rig = Rig::started(audio_params());
    let mut all = Vec::new();
    for n in [7usize, 0, 500, 160, 3, 90] {
        let samples: Vec<i16> = (0..n).map(|i| i as i16 + n as i16).collect();
        all.extend(samples_to_bytes(&samples));
        rig.send(envelope(make_output_audio(&samples, 16000)));
    }
    assert_eq!(rig.written_audio.len(), all.len() / 320);
    assert!(rig.written_audio.iter().all(|chunk| chunk.len() == 320));
    assert_eq!(rig.written_audio.concat(), all[..all.len() / 320 * 320]);
}

#[test]
fn chunks_must_have_a_size() {
    let mut params = audio_params();
    params.audio_out_10ms_chunks = 0;
    let rig = Rig::started(params);
    let facts = FrameFacts { is_system: false, resampled: None, bot_speaking: false };
    let audio = envelope(make_output_audio(&[1], 16000));
    assert!(!rig.transport.can_process(&audio, &facts));
    assert!(rig.transport.can_process(&envelope(Frame::End), &facts));
    assert!(Rig::started(audio_params()).transport.can_process(&audio, &facts));
    let huge = Rig::new(TransportParams {
        audio_out_channels: u16::MAX,
        audio_out_10ms_chunks: u32::MAX,
        ..audio_params()
    });
    assert!(!huge.transport.can_process(&envelope(start_frame(u32::MAX)), &facts));
    assert!(huge.transport.can_process(&envelope(start_frame(100)), &facts));
}

#[test]
fn tts_audio_triggers_bot_started_speaking() {
    let mut rig = Rig::started(audio_params());
    let samples: Vec<i16> = (1..=160).collect();
    rig.send(envelope(make_tts_audio(&samples, 16000)));
    assert_eq!(rig.downstream_count("BotStartedSpeaking"), 1);
    assert_eq!(rig.upstream_count("BotStartedSpeaking"), 1);
}

#[test]
fn tts_stopped_triggers_bot_stopped_speaking() {
    let mut rig = Rig::started(audio_params());
    let samples: Vec<i16> = (1..=160).collect();
    rig.send(envelope(make_tts_audio(&samples, 16000)));
    rig.now = 50 * MS;
    rig.send(envelope(Frame::TTSStopped { context_id: None }));
    assert_eq!(rig.downstream_count("BotStoppedSpeaking"), 1);
    assert_eq!(rig.upstream_count("BotStoppedSpeaking"), 1);
}

#[test]
fn interruption_clears_audio_and_emits_bot_stopped() {
    let mut rig = Rig::started(audio_params());
    let samples: Vec<i16> = (1..=160).collect();
    rig.send(envelope(make_tts_audio(&samples, 16000)));
    rig.send(envelope(make_tts_audio(&[5; 100], 16000)));
    rig.send(envelope(Frame::Interruption));
    assert_eq!(rig.downstream_count("BotStoppedSpeaking"), 1);
    assert_eq!(rig.upstream_count("BotStoppedSpeaking"), 1);
    // What was short of a chunk is gone.
    let before = rig.written_audio.len();
    rig.send(envelope(make_tts_audio(&[6; 160], 16000)));
    assert_eq!(rig.written_audio.len(), before + 1);
    assert_eq!(rig.written_audio[before][0], 6);
}

#[test]
fn output_transport_ready_sent_upstream() {
    let rig = Rig::started(TransportParams {
        audio_out_enabled: true,
        ..TransportParams::default()
    });
    assert_eq!(rig.upstream_count("OutputTransportReady"), 1);
}

#[test]
fn ready_before_start_does_nothing() {
    let mut rig = Rig::new(audio_params());
    rig.ready();
    assert!(rig.upstream.is_empty() && rig.transport.senders().is_empty());
}

#[test]
fn urgent_message_sent_directly() {
    let mut rig = Rig::new(TransportParams::default());
    let message: Value = serde_json::from_str(r#"{"type": "test"}"#).unwrap();
    rig.send(envelope(Frame::OutputTransportMessageUrgent { message: message.clone() }));
    assert_eq!(rig.messages, vec![message]);
}

#[test]
fn end_frame_sends_silence() {
    let mut params = audio_params();
    params.audio_out_end_silence_secs = 1;
    let mut rig = Rig::started(params);
    rig.send(envelope(Frame::End));
    // 1 second of silence at 16000 Hz mono 16-bit = 32000 bytes
    let total_silence: usize = rig.written_audio.iter().map(|b| b.len()).sum();
    assert_eq!(total_silence, 32000);
    assert_eq!(rig.written_audio.len(), 100);
    for chunk in &rig.written_audio {
        assert!(chunk.iter().all(|&b| b == 0));
    }
}

// -- Silence --

#[test]
fn silence_all_zeros() {
    let audio = samples_to_bytes(&[0, 0, 0, 0]);
    assert!(is_silence(&audio));
}

#[test]
fn silence_at_threshold() {
    let audio = samples_to_bytes(&[20, -20, 15, 0]);
    assert!(is_silence(&audio));
}

#[test]
fn not_silence_above_threshold() {
    let audio = samples_to_bytes(&[21, 0, 0, 0]);
    assert!(!is_silence(&audio));
}

#[test]
fn not_silence_negative_above_threshold() {
    let audio = samples_to_bytes(&[0, -21, 0, 0]);
    assert!(!is_silence(&audio));
}

#[test]
fn not_silence_large_amplitude() {
    let audio = samples_to_bytes(&[1000, -5000, 200, 0]);
    assert!(!is_silence(&audio));
}

#[test]
fn silence_empty_audio() {
    assert!(is_silence(&[]));
}

#[test]
fn silence_single_byte_treated_as_empty() {
    assert!(is_silence(&[0xFF]));
}

#[test]
fn loudest_negative_sample_is_no_silence() {
    assert!(!is_silence(&samples_to_bytes(&[i16::MIN])));
}

// -- Clock --

fn timed(text: &str, pts: u64) -> FrameEnvelope {
    let mut e = envelope(Frame::Transcription(TranscriptionFrame {
        text: text.into(),
        user_id: "user1".into(),
        timestamp: None,
        language: None,
        finalized: true,
        result: None,
    }));
    e.pts = Some(pts);
    e
}

#[test]
fn clock_task_delivers_frame_with_pts_zero() {
    let mut rig = Rig::started(audio_params());
    rig.send(timed("hello", 0));
    assert_eq!(rig.downstream_count("Transcription"), 1);
}

#[test]
fn clock_task_end_frame_terminates_cleanly() {
    let mut rig = Rig::started(audio_params());
    assert!(rig.clock.is_some());
    rig.send(envelope(Frame::End));
    assert!(rig.clock.is_none());
}

#[test]
fn clock_delivers_in_order_of_time() {
    let mut clock = ClockQueue::new(1000);
    clock.receive(timed("late", 30));
    clock.receive(timed("early", 10));
    clock.receive(timed("middle", 20));
    assert_eq!(clock.next_due(), Some(1010));
    assert!(clock.deliver_due(1009).is_empty());
    let texts: Vec<String> = clock
        .deliver_due(1025)
        .into_iter()
        .map(|e| match e.frame {
            Frame::Transcription(t) => t.text,
            other => kind(&other),
        })
        .collect();
    assert_eq!(texts, vec!["early", "middle"]);
    assert_eq!(clock.next_due(), Some(1030));
    clock.close();
    assert!(clock.is_done());
    assert_eq!(clock.next_due(), None);
}

// -- Video --

fn make_test_image(id: u8) -> ImageRawFrame {
    ImageRawFrame {
        image: Bytes::from(vec![id; 64]),
        size: (8, 8),
        format: Some("RGB".to_string()),
    }
}

fn video_params(live: bool) -> TransportParams {
    TransportParams {
        video_out_enabled: true,
        video_out_is_live: live,
        video_out_framerate: 30,
        ..audio_params()
    }
}

#[test]
fn video_cycling_writes_frames() {
    let mut rig = Rig::started(video_params(false));
    rig.send(envelope(Frame::Sprite(vec![make_test_image(1), make_test_image(2)])));
    rig.show(3);
    assert!(rig.written_video.len() >= 3);
    assert_eq!(rig.written_video[0].image[0], 1);
    assert_eq!(rig.written_video[1].image[0], 2);
    assert_eq!(rig.written_video[2].image[0], 1);
}

#[test]
fn video_live_writes_frames() {
    let mut rig = Rig::started(video_params(true));
    assert_eq!(rig.video, VideoTask::Live);
    for i in 0..3u8 {
        rig.send(envelope(Frame::OutputImageRaw(make_test_image(i + 10))));
    }
    assert_eq!(rig.written_video.len(), 3);
    assert_eq!(rig.written_video[0].image[0], 10);
    assert_eq!(rig.written_video[1].image[0], 11);
    assert_eq!(rig.written_video[2].image[0], 12);
}

#[test]
fn video_disabled_ignores_frames() {
    let mut rig = Rig::started(audio_params());
    rig.send(envelope(Frame::OutputImageRaw(make_test_image(1))));
    rig.show(3);
    assert!(rig.written_video.is_empty());
}

#[test]
fn video_cycling_single_image_repeats() {
    let mut rig = Rig::started(video_params(false));
    rig.send(envelope(Frame::OutputImageRaw(make_test_image(42))));
    rig.show(3);
    assert!(rig.written_video.len() >= 3);
    for frame in &rig.written_video {
        assert_eq!(frame.image[0], 42);
    }
}

#[test]
fn assistant_image_raw_routes_to_video_and_audio_queue() {
    let mut rig = Rig::started(video_params(false));
    rig.send(envelope(Frame::AssistantImageRaw(ImageRawFrame {
        image: Bytes::from(vec![99u8; 64]),
        size: (8, 8),
        format: Some("RGB".to_string()),
    })));
    rig.show(1);
    assert!(!rig.written_video.is_empty());
    assert_eq!(rig.written_video[0].image[0], 99);
    assert_eq!(rig.downstream_count("AssistantImageRaw"), 1);
}

#[test]
fn multi_destination_routes_to_correct_sender() {
    let mut params = audio_params();
    params.audio_out_destinations = vec!["dest1".to_string()];
    let rig = Rig::started(params);
    let senders = rig.transport.senders();
    assert_eq!(senders.len(), 2);
    assert!(senders.iter().any(|s| s.destination().is_none()));
    assert!(senders.iter().any(|s| s.destination().as_deref() == Some("dest1")));
    assert_eq!(rig.registered, vec!["audio dest1", "video dest1"]);
    assert_eq!(rig.transport.resolve_dest_key(&Some("dest1".into())), Some(1));
    assert_eq!(rig.transport.resolve_dest_key(&Some("other".into())), Some(0));
    assert_eq!(rig.transport.resolve_dest_key(&None), Some(0));
}

#[test]
fn repeated_destinations_are_registered_once() {
    let mut params = audio_params();
    params.audio_out_destinations = vec!["a".into(), "b".into(), "a".into()];
    params.video_out_destinations = vec!["b".into(), "c".into()];
    let rig = Rig::started(params);
    assert_eq!(rig.transport.senders().len(), 4);
    assert_eq!(rig.registered.len(), 6);
}

#[test]
fn live_pacing() {
    let mut pacer = LivePacer::new(100);
    assert_eq!(pacer.pace(1000), 0);
    assert_eq!(pacer.pace(1050), 150);
    assert_eq!(pacer.pace(1300), 0);
    // Far behind: the schedule starts anew.
    assert_eq!(pacer.pace(5000), 0);
    assert_eq!(pacer.pace(5000), 200);
}

#[test]
fn nearest_pixels_are_taken() {
    let image = ImageRawFrame {
        image: Bytes::from(vec![1, 1, 1, 2, 2, 2]),
        size: (2, 1),
        format: Some("RGB".into()),
    };
    let resized = resize_image_if_needed(image, 4, 2);
    assert_eq!(resized.size, (4, 2));
    let row = [1, 1, 1, 1, 1, 1, 2, 2, 2, 2, 2, 2];
    assert_eq!(&resized.image[..], [row, row].concat());
}

#[test]
fn unknown_formats_are_not_resized() {
    let image = ImageRawFrame {
        image: Bytes::from(vec![7; 6]),
        size: (2, 1),
        format: Some("YUV".into()),
    };
    let same = maybe_resize_image(image, 4, 2);
    assert_eq!(same.size, (2, 1));
    assert_eq!(&same.image[..], &[7; 6]);
}

#[test]
fn impossible_resizes_are_blank() {
    let empty = ImageRawFrame { image: Bytes::new(), size: (0, 3), format: Some("L".into()) };
    let blank = maybe_resize_image(empty, 4, 2);
    assert_eq!((blank.image.len(), blank.size, blank.format), (0, (4, 2), None));
    let pixel =
        ImageRawFrame { image: Bytes::from(vec![1]), size: (1, 1), format: Some("GRAY".into()) };
    let blank = maybe_resize_image(pixel, u32::MAX, u32::MAX);
    assert_eq!((blank.image.len(), blank.size, blank.format), (0, (u32::MAX, u32::MAX), None));
}

// -- Speaking --

#[test]
fn bot_falls_silent_after_a_pause() {
    let config = AudioOutputConfig {
        has_mixer: false,
        sample_rate: 16000,
        channels: 1,
        audio_chunk_size: 320,
        end_silence_secs: 0,
    };
    let mut audio = AudioOutput::new(config, 0);
    let frame = envelope(make_tts_audio(&[100; 160], 16000));
    let names = |actions: Vec<AudioOutputAction>| -> Vec<String> {
        actions.iter().map(|a| format!("{a:?}").chars().take_while(|c| c.is_alphanumeric()).collect()).collect()
    };
    let first = names(audio.on_frame(&frame, 1000 * MS));
    assert_eq!(first, vec!["Broadcast", "SendDownstream", "PlayAudio"]);
    assert!(audio.bot_speaking());
    // A frame soon after is not announced again.
    let soon = names(audio.on_frame(&frame, 1010 * MS));
    assert_eq!(soon, vec!["PlayAudio"]);
    assert_eq!(names(audio.on_timeout()), vec!["Broadcast"]);
    assert!(!audio.bot_speaking());
    assert!(names(audio.on_timeout()).is_empty());
    audio.on_closed();
    assert!(audio.is_done());
}

#[test]
fn silence_must_be_countable() {
    let config = AudioOutputConfig {
        has_mixer: true,
        sample_rate: 16000,
        channels: 1,
        audio_chunk_size: 0,
        end_silence_secs: 1,
    };
    assert!(!config.is_valid());
    // Only the end needs the silence.
    let mut audio = AudioOutput::new(config, 0);
    assert_eq!(audio.on_frame(&envelope(make_output_audio(&[1], 16000)), 0).len(), 1);
    assert!(AudioOutputConfig { end_silence_secs: 0, ..config }.is_valid());
    assert_eq!(BotSpeakingState::new(9).last_speech_time, 9);
}

#[test]
fn audio_of_frames() {
    assert!(extract_audio(&Frame::End).is_none());
    let audio = extract_audio(&make_tts_audio(&[1, 2], 8000)).unwrap();
    assert_eq!(audio.sample_rate, 8000);
    assert_eq!(&audio.audio[..], &[1, 0, 2, 0]);
}
