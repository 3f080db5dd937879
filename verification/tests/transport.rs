//! Input transports, local transports, devices and formats.
use bytes::Bytes;
use pipecat::frames::{
    AudioRawFrame, Direction, Frame, FrameEnvelope, ImageRawFrame, StartFrame, TextFrame,
};
use pipecat::transport::audio_output::{AudioOutput, AudioOutputAction};
use pipecat::transport::audio_player::{AudioPlayer, AudioPlayerConfig, PlayerStep};
use pipecat::transport::error::TransportError;
use pipecat::transport::input::{AudioInput, BaseInputTransport, InputAction};
use pipecat::transport::local::{
    compute_chunk_bytes, feed_chunks, source_frames, AudioFormat, AudioInputSource,
    AudioOutputSink, AudioPacing, FeedPlan, LocalAudioInputTransport, LocalAudioOutputTransport,
    LocalAudioTransport, LocalInputAction, SinkStep,
};
use pipecat::transport::media_sender::SenderAction;
use pipecat::transport::mic_input::{
    buffer_captured, max_buffer_bytes, MicAction, MicChunker, MicInput, MicInputConfig,
};
use pipecat::transport::output::{FrameFacts, OutputAction};
use pipecat::transport::params::TransportParams;
use pipecat::transport::pcm::{decode_samples, encode_samples, zero_bytes};
use pipecat::transport::wav::{audio_from_samples, read_wav_to_pcm, WavHeader};

fn envelope(frame: Frame) -> FrameEnvelope {
    FrameEnvelope { id: 1, pts: None, transport_destination: None, frame }
}

fn start_frame(in_rate: u32, out_rate: u32) -> Frame {
    Frame::Start(StartFrame {
        audio_in_sample_rate: in_rate,
        audio_out_sample_rate: out_rate,
        allow_interruptions: true,
        enable_metrics: false,
        enable_usage_metrics: false,
        report_only_initial_ttfb: false,
    })
}

fn kind(frame: &Frame) -> String {
    format!("{frame:?}").chars().take_while(|c| c.is_alphanumeric()).collect()
}

fn make_input_audio(samples: &[i16], sample_rate: u32) -> AudioRawFrame {
    let bytes: Vec<u8> = samples.iter().flat_map(|s| s.to_le_bytes()).collect();
    AudioRawFrame { audio: Bytes::from(bytes), sample_rate, num_channels: 1 }
}

/// A transport whose audio queue is worked off at once.
struct InputRig {
    transport: BaseInputTransport,
    audio: Option<AudioInput>,
    /// What a filter makes of audio, where there is one.
    filter: Option<fn(&Bytes) -> Bytes>,
    filter_calls: usize,
    filter_controls: usize,
    downstream: Vec<String>,
}

impl InputRig {
    fn new(params: TransportParams) -> InputRig {
        InputRig {
            transport: BaseInputTransport::new(params),
            audio: None,
            filter: None,
            filter_calls: 0,
            filter_controls: 0,
            downstream: Vec::new(),
        }
    }

    fn perform(&mut self, actions: Vec<InputAction>, frame: Option<&Frame>) {
        for action in actions {
            match action {
                InputAction::Forward(_) => self.downstream.push(kind(frame.unwrap())),
                InputAction::SpawnAudio { passthrough } => {
                    self.audio = Some(AudioInput::new(passthrough));
                }
                InputAction::CloseAudio { .. } => self.audio = None,
                InputAction::ControlFilter => self.filter_controls += 1,
                InputAction::StartFilter(_) | InputAction::StopFilter => {}
            }
        }
    }

    fn send(&mut self, frame: Frame) {
        let e = envelope(frame);
        let actions = self.transport.process_frame(&e, Direction::Downstream);
        self.perform(actions, Some(&e.frame));
    }

    fn ready(&mut self) {
        let actions = self.transport.set_transport_ready();
        self.perform(actions, None);
    }

    fn push_audio_frame(&mut self, frame: AudioRawFrame) {
        if let Some(frame) = self.transport.push_audio_frame(frame) {
            let filtered = self.filter.map(|f| f(&frame.audio));
            if filtered.is_some() {
                self.filter_calls += 1;
            }
            if let Some(frame) = self.audio.as_mut().unwrap().on_frame(frame, filtered) {
                self.downstream.push(kind(&frame));
            }
        }
    }

    fn audio_frames(&self) -> usize {
        self.downstream.iter().filter(|f| *f == "InputAudioRaw").count()
    }
}

fn input_params() -> TransportParams {
    TransportParams {
        audio_in_enabled: true,
        audio_in_passthrough: true,
        ..TransportParams::default()
    }
}

fn text_frame(text: &str) -> Frame {
    Frame::Text(TextFrame {
        text: text.into(),
        skip_tts: None,
        includes_inter_frame_spaces: false,
        append_to_context: true,
    })
}

#[test]
fn start_frame_sets_sample_rate() {
    let mut rig = InputRig::new(TransportParams {
        audio_in_enabled: true,
        ..TransportParams::default()
    });
    rig.send(start_frame(16000, 24000));
    assert_eq!(rig.transport.sample_rate(), 16000);
    assert_eq!(rig.downstream, vec!["Start"]);
}

#[test]
fn input_params_sample_rate_overrides_start_frame() {
    let mut rig = InputRig::new(TransportParams {
        audio_in_enabled: true,
        audio_in_sample_rate: Some(48000),
        ..TransportParams::default()
    });
    rig.send(start_frame(16000, 24000));
    assert_eq!(rig.transport.sample_rate(), 48000);
}

#[test]
fn input_lifecycle_frames_forwarded() {
    let mut rig = InputRig::new(TransportParams::default());
    rig.send(start_frame(16000, 24000));
    rig.send(Frame::End);
    assert_eq!(rig.downstream, vec!["Start", "End"]);
}

#[test]
fn cancel_frame_forwarded() {
    let mut rig = InputRig::new(TransportParams::default());
    rig.send(start_frame(16000, 24000));
    rig.send(Frame::Cancel);
    assert_eq!(rig.downstream, vec!["Start", "Cancel"]);
}

#[test]
fn non_audio_frames_forwarded() {
    let mut rig = InputRig::new(TransportParams::default());
    rig.send(text_frame("hello"));
    rig.send(Frame::Interruption);
    assert_eq!(rig.downstream, vec!["Text", "Interruption"]);
}

#[test]
fn audio_passthrough_works() {
    let mut rig = InputRig::new(input_params());
    rig.send(start_frame(16000, 24000));
    rig.ready();
    rig.push_audio_frame(make_input_audio(&[100, 200, 300], 16000));
    assert!(rig.downstream.len() >= 2);
    assert_eq!(rig.downstream[0], "Start");
    assert_eq!(rig.downstream[1], "InputAudioRaw");
}

#[test]
fn audio_disabled_does_not_forward() {
    let mut rig = InputRig::new(TransportParams {
        audio_in_enabled: false,
        ..TransportParams::default()
    });
    rig.send(start_frame(16000, 24000));
    rig.ready();
    rig.push_audio_frame(make_input_audio(&[100, 200], 16000));
    assert_eq!(rig.downstream, vec!["Start"]);
}

#[test]
fn paused_blocks_audio() {
    let mut rig = InputRig::new(input_params());
    rig.send(start_frame(16000, 24000));
    rig.ready();
    rig.send(Frame::Stop);
    rig.push_audio_frame(make_input_audio(&[100], 16000));
    assert_eq!(rig.audio_frames(), 0);
}

#[test]
fn filter_applied_in_audio_task() {
    let mut params = input_params();
    params.audio_in_filter = true;
    let mut rig = InputRig::new(params);
    rig.filter = Some(|audio| audio.clone());
    rig.send(start_frame(16000, 24000));
    rig.ready();
    rig.push_audio_frame(make_input_audio(&[100, 200, 300], 16000));
    assert_eq!(rig.filter_calls, 1);
    assert_eq!(rig.audio_frames(), 1);
}

#[test]
fn filter_buffering_skips_frame() {
    let mut params = input_params();
    params.audio_in_filter = true;
    let mut rig = InputRig::new(params);
    rig.filter = Some(|_| Bytes::new());
    rig.send(start_frame(16000, 24000));
    rig.ready();
    rig.push_audio_frame(make_input_audio(&[100, 200], 16000));
    assert_eq!(rig.audio_frames(), 0);
}

#[test]
fn filter_control_frames_forwarded_downstream() {
    let mut rig = InputRig::new(TransportParams {
        audio_in_enabled: true,
        audio_in_filter: true,
        ..TransportParams::default()
    });
    rig.send(start_frame(16000, 24000));
    rig.send(Frame::FilterUpdateSettings);
    let count = rig.downstream.iter().filter(|f| *f == "FilterUpdateSettings").count();
    assert_eq!(count, 1);
    assert_eq!(rig.filter_controls, 1);
}

#[test]
fn first_frame_is_awaited_without_a_limit() {
    let mut audio = AudioInput::new(false);
    assert_eq!(audio.timeout(), None);
    assert!(audio.on_frame(make_input_audio(&[1], 16000), None).is_none());
    assert_eq!(audio.timeout(), Some(500_000_000));
}

#[test]
fn streaming_can_wait() {
    let mut rig = InputRig::new(input_params());
    rig.transport.enable_audio_in_stream_on_start(false);
    rig.send(start_frame(16000, 24000));
    rig.push_audio_frame(make_input_audio(&[1], 16000));
    assert_eq!(rig.audio_frames(), 0);
    rig.ready();
    rig.push_audio_frame(make_input_audio(&[1], 16000));
    assert_eq!(rig.audio_frames(), 1);
}

#[test]
fn video_needs_a_start() {
    let image = || ImageRawFrame { image: Bytes::new(), size: (0, 0), format: None };
    let mut rig = InputRig::new(TransportParams {
        video_in_enabled: true,
        ..TransportParams::default()
    });
    assert!(rig.transport.push_video_frame(image()).is_none());
    rig.send(start_frame(16000, 24000));
    assert!(matches!(
        rig.transport.push_video_frame(image()),
        Some(Frame::InputImageRaw(_))
    ));
    assert_eq!(rig.transport.name(), "BaseInputTransport");
    assert_eq!(BaseInputTransport::with_name("x".into(), TransportParams::default()).name(), "x");
}

// -- Params and errors --

#[test]
fn default_params() {
    let p = TransportParams::default();
    assert!(!p.audio_in_enabled);
    assert!(!p.audio_out_enabled);
    assert_eq!(p.audio_in_channels, 1);
    assert_eq!(p.audio_out_channels, 1);
    assert_eq!(p.audio_out_10ms_chunks, 4);
    assert_eq!(p.audio_out_bitrate, 96_000);
    assert_eq!(p.audio_out_end_silence_secs, 2);
    assert!(p.audio_in_passthrough);
    assert!(p.audio_in_stream_on_start);
    assert!(!p.audio_in_filter);
    assert!(!p.audio_in_resampler);
    assert!(!p.audio_out_mixer);
    assert!(p.audio_out_mixer_map.is_empty());
    assert!(!p.audio_out_resampler);
    assert!(p.audio_out_destinations.is_empty());
    assert!(!p.video_in_enabled);
    assert!(!p.video_out_enabled);
    assert!(p.video_out_destinations.is_empty());
    assert_eq!(p.video_out_width, 1024);
    assert_eq!(p.video_out_height, 768);
    assert_eq!(p.video_out_framerate, 30);
}

#[test]
fn debug_impl_works() {
    let p = TransportParams::default();
    let debug = format!("{:?}", p);
    assert!(debug.contains("TransportParams"));
    assert!(debug.contains("audio_in_enabled: false"));
    assert!(debug.contains("audio_in_filter: false"));
    assert!(debug.contains("audio_out_mixer: false"));
}

#[test]
fn error_messages() {
    assert_eq!(TransportError::AudioWrite("x".into()).message(), "audio write failed: x");
    assert_eq!(TransportError::VideoWrite("x".into()).message(), "video write failed: x");
    assert_eq!(TransportError::MessageSend("x".into()).message(), "message send failed: x");
    assert_eq!(TransportError::ChannelClosed("x".into()).message(), "internal channel closed: x");
    assert_eq!(TransportError::NotStarted.message(), "transport not started");
}

// -- Local transports --

fn make_pcm_bytes(num_samples: usize) -> Bytes {
    let samples: Vec<i16> = (0..num_samples).map(|i| (i % 200) as i16).collect();
    let bytes: Vec<u8> = samples.iter().flat_map(|s| s.to_le_bytes()).collect();
    Bytes::from(bytes)
}

fn make_wav_bytes(samples: &[i16], sample_rate: u32, num_channels: u16) -> Bytes {
    let spec = hound::WavSpec {
        channels: num_channels,
        sample_rate,
        bits_per_sample: 16,
        sample_format: hound::SampleFormat::Int,
    };
    let mut cursor = std::io::Cursor::new(Vec::new());
    {
        let mut writer = hound::WavWriter::new(&mut cursor, spec).unwrap();
        for &s in samples {
            writer.write_sample(s).unwrap();
        }
        writer.finalize().unwrap();
    }
    Bytes::from(cursor.into_inner())
}

/// Starts a local input transport: what is pushed downstream, with the frames
/// that the program injects where the source is a channel.
fn run_local_input(
    transport: &mut LocalAudioInputTransport,
    injected: Vec<AudioRawFrame>,
) -> Vec<Frame> {
    let mut downstream = Vec::new();
    let mut audio = None;
    let mut injected = Some(injected);
    let e = envelope(start_frame(16000, 24000));
    for action in transport.process_frame(&e, Direction::Downstream) {
        match action {
            LocalInputAction::Inner(InputAction::Forward(_)) => {
                downstream.push(start_frame(16000, 24000));
            }
            LocalInputAction::Inner(InputAction::SpawnAudio { passthrough }) => {
                audio = Some(AudioInput::new(passthrough));
            }
            LocalInputAction::Inner(_) => {}
            LocalInputAction::Feed(source, plan) => {
                let frames = match source {
                    AudioInputSource::Buffer(data) => {
                        source_frames(&data, plan.format, plan.sample_rate, plan.num_channels)
                    }
                    AudioInputSource::Channel => injected.take().unwrap(),
                    AudioInputSource::File(_) => Vec::new(),
                };
                for frame in frames {
                    downstream.extend(audio.as_mut().unwrap().on_frame(frame, None));
                }
            }
            LocalInputAction::CancelFeed => {}
        }
    }
    downstream
}

fn audio_of(frames: &[Frame]) -> Vec<Bytes> {
    frames
        .iter()
        .filter_map(|f| match f {
            Frame::InputAudioRaw(a) => Some(a.audio.clone()),
            _ => None,
        })
        .collect()
}

#[test]
fn input_transport_feeds_audio_from_buffer() {
    let pcm_data = make_pcm_bytes(640);
    let mut transport =
        LocalAudioInputTransport::new(input_params(), AudioInputSource::Buffer(pcm_data.clone()));
    let frames = run_local_input(&mut transport, Vec::new());
    assert!(frames.len() >= 2);
    assert!(matches!(&frames[0], Frame::Start(_)));
    let audio = audio_of(&frames);
    assert_eq!(audio.len(), 2);
    assert_eq!(audio.concat(), pcm_data);
}

#[test]
fn input_transport_channel_source() {
    let mut transport = LocalAudioInputTransport::new(input_params(), AudioInputSource::Channel);
    let injected = vec![AudioRawFrame {
        audio: make_pcm_bytes(160),
        sample_rate: 16000,
        num_channels: 1,
    }];
    let frames = run_local_input(&mut transport, injected);
    assert!(audio_of(&frames).len() >= 1);
}

#[test]
fn wav_input_from_buffer() {
    let samples: Vec<i16> = (0..640).map(|i| (i % 200) as i16).collect();
    let wav_data = make_wav_bytes(&samples, 16000, 1);
    let mut transport =
        LocalAudioInputTransport::new(input_params(), AudioInputSource::Buffer(wav_data))
            .with_format(AudioFormat::Wav);
    let frames = run_local_input(&mut transport, Vec::new());
    let audio = audio_of(&frames);
    assert!(audio.len() >= 1);
    let total_pcm = audio.concat();
    assert_eq!(total_pcm.len(), samples.len() * 2);
    assert_eq!(total_pcm, make_pcm_bytes(640));
}

/// Runs a local output transport; what it writes goes into its sink. Returns
/// the format and the samples of the WAV file, if one was made.
fn run_local_output(
    transport: &mut LocalAudioOutputTransport,
    frames: Vec<Frame>,
) -> (Option<(u32, u16)>, Vec<i16>, bool) {
    let mut audio: Option<AudioOutput> = None;
    let mut made = None;
    let mut samples = Vec::new();
    let mut closed = false;
    for frame in frames {
        let e = envelope(frame);
        let facts = FrameFacts { is_system: false, resampled: None, bot_speaking: false };
        let (actions, close) = transport.process_frame(&e, Direction::Downstream, facts);
        let mut writes = Vec::new();
        for action in actions {
            let OutputAction::Sender { action, .. } = action else { continue };
            match action {
                SenderAction::SpawnAudio => {
                    let config = transport.inner().senders()[0].audio_config();
                    audio = Some(AudioOutput::new(config, 0));
                }
                SenderAction::QueueAudio(frame) => {
                    writes.extend(audio.as_mut().unwrap().on_frame(&envelope(frame), 0));
                }
                SenderAction::FinishAudio { .. } => {
                    writes.extend(audio.as_mut().unwrap().on_frame(&envelope(Frame::End), 0));
                }
                _ => {}
            }
        }
        for write in writes {
            if let AudioOutputAction::PlayAudio(f) | AudioOutputAction::WriteAudio(f) = write {
                match transport.sink_mut().write_audio_frame(&f) {
                    SinkStep::CreateWav { sample_rate, channels } => {
                        made = Some((sample_rate, channels));
                        samples.extend(transport.sink_mut().created(true, &f).unwrap());
                    }
                    SinkStep::WriteSamples(more) => samples.extend(more),
                    SinkStep::Taken | SinkStep::AppendToFile => {}
                }
            }
        }
        closed = closed || (close && transport.sink_mut().finalize());
    }
    (made, samples, closed)
}

fn output_params() -> TransportParams {
    TransportParams { audio_out_enabled: true, ..TransportParams::default() }
}

#[test]
fn output_transport_collects_audio() {
    let mut transport = LocalAudioOutputTransport::new(output_params(), &AudioOutputSink::Buffer);
    let audio_data = make_pcm_bytes(1920);
    let frame = Frame::OutputAudioRaw(AudioRawFrame {
        audio: audio_data.clone(),
        sample_rate: 24000,
        num_channels: 1,
    });
    run_local_output(&mut transport, vec![start_frame(16000, 24000), frame]);
    let collected = transport.output_buffer().unwrap();
    assert!(!collected.is_empty());
    assert_eq!(&collected[..], &audio_data[..]);
}

#[test]
fn output_discard_sink() {
    let mut transport = LocalAudioOutputTransport::new(output_params(), &AudioOutputSink::Discard);
    let frame = Frame::OutputAudioRaw(AudioRawFrame {
        audio: make_pcm_bytes(320),
        sample_rate: 24000,
        num_channels: 1,
    });
    run_local_output(&mut transport, vec![start_frame(16000, 24000), frame]);
    assert!(transport.output_buffer().is_none());
}

#[test]
fn wav_output_to_file() {
    let mut transport = LocalAudioOutputTransport::with_format(
        output_params(),
        &AudioOutputSink::File("test_output.wav".into()),
        AudioFormat::Wav,
    );
    let samples: Vec<i16> = (0..2400).map(|i| (i % 100) as i16).collect();
    let pcm_bytes: Vec<u8> = samples.iter().flat_map(|s| s.to_le_bytes()).collect();
    let frame = Frame::OutputAudioRaw(AudioRawFrame {
        audio: Bytes::from(pcm_bytes),
        sample_rate: 24000,
        num_channels: 1,
    });
    let (made, written, closed) =
        run_local_output(&mut transport, vec![start_frame(16000, 24000), frame, Frame::End]);
    let (sample_rate, channels) = made.unwrap();
    let wav = make_wav_bytes(&written, sample_rate, channels);
    let reader = hound::WavReader::new(std::io::Cursor::new(wav)).unwrap();
    let spec = reader.spec();
    assert_eq!(spec.sample_rate, 24000);
    assert_eq!(spec.channels, 1);
    assert_eq!(spec.bits_per_sample, 16);
    assert_eq!(spec.sample_format, hound::SampleFormat::Int);
    let read_samples: Vec<i16> = reader.into_samples::<i16>().map(|s| s.unwrap()).collect();
    assert!(!read_samples.is_empty());
    assert_eq!(&read_samples[..1920], &samples[..1920]);
    // The trailing silence is written before the file is closed.
    assert_eq!(read_samples.len(), 1920 + 48000);
    assert!(closed);
}

#[test]
fn failed_wav_files_take_no_more() {
    let mut transport = LocalAudioOutputTransport::with_format(
        output_params(),
        &AudioOutputSink::File("x.wav".into()),
        AudioFormat::Wav,
    );
    let frame = make_input_audio(&[1, 2], 8000);
    let sink = transport.sink_mut();
    assert!(matches!(
        sink.write_audio_frame(&frame),
        SinkStep::CreateWav { sample_rate: 8000, channels: 1 }
    ));
    assert!(sink.created(false, &frame).is_none());
    assert!(matches!(sink.write_audio_frame(&frame), SinkStep::Taken));
    assert!(!sink.finalize());
}

#[test]
fn builders_enable_audio() {
    let mut input = LocalAudioTransport::input(
        TransportParams { audio_in_passthrough: false, ..TransportParams::default() },
        AudioInputSource::File("in.raw".into()),
    )
    .with_pacing(AudioPacing::RealTime);
    let actions =
        input.process_frame(&envelope(start_frame(16000, 24000)), Direction::Downstream);
    assert!(actions.iter().any(|a| matches!(
        a,
        LocalInputAction::Feed(
            AudioInputSource::File(path),
            FeedPlan { format: AudioFormat::RawPcm, sample_rate: 16000, num_channels: 1, realtime: true }
        ) if path == "in.raw"
    )));
    let actions = input.process_frame(&envelope(Frame::End), Direction::Downstream);
    assert!(matches!(actions.last(), Some(LocalInputAction::CancelFeed)));
    assert_eq!(input.inner().sample_rate(), 16000);
    let output = LocalAudioTransport::output(TransportParams::default(), &AudioOutputSink::Buffer);
    assert_eq!(output.inner().name(), "LocalAudioOutput");
}

#[test]
fn chunks_of_twenty_milliseconds() {
    assert_eq!(compute_chunk_bytes(16000, 1), 640);
    assert_eq!(compute_chunk_bytes(44100, 2), 3528);
    let frames = feed_chunks(&[1, 2, 3, 4, 5], 2, 8000, 1);
    let lengths: Vec<usize> = frames.iter().map(|f| f.audio.len()).collect();
    assert_eq!(lengths, vec![2, 2, 1]);
    assert_eq!(frames[2].sample_rate, 8000);
}

// -- WAV and PCM --

#[test]
fn wav_audio_is_read() {
    let wav = make_wav_bytes(&[1, -2, i16::MIN, i16::MAX], 8000, 2);
    let audio = read_wav_to_pcm(&wav).unwrap();
    assert_eq!((audio.sample_rate, audio.num_channels), (8000, 2));
    assert_eq!(decode_samples(&audio.pcm), vec![1, -2, i16::MIN, i16::MAX]);
}

#[test]
fn other_wav_formats_are_refused() {
    assert!(read_wav_to_pcm(b"RIFF").is_none());
    let spec = hound::WavSpec {
        channels: 1,
        sample_rate: 8000,
        bits_per_sample: 8,
        sample_format: hound::SampleFormat::Int,
    };
    let mut cursor = std::io::Cursor::new(Vec::new());
    let mut writer = hound::WavWriter::new(&mut cursor, spec).unwrap();
    writer.write_sample(3i8).unwrap();
    writer.finalize().unwrap();
    assert!(read_wav_to_pcm(&cursor.into_inner()).is_none());
    // A file that ends in the middle of its samples.
    let wav = make_wav_bytes(&[1, 2, 3], 8000, 1);
    assert!(read_wav_to_pcm(&wav[..wav.len() - 1]).is_none());
    let header = WavHeader { channels: 1, sample_rate: 1, bits_per_sample: 16, is_int: false };
    assert!(audio_from_samples(header, Some(vec![1])).is_none());
    let header = WavHeader { is_int: true, ..header };
    assert!(audio_from_samples(header, None).is_none());
    assert_eq!(audio_from_samples(header, Some(vec![258])).unwrap().pcm, vec![2, 1]);
}

#[test]
fn samples_round_trip() {
    let samples: Vec<i16> = vec![0, 1, -1, 256, -256, i16::MAX, i16::MIN];
    let pcm = encode_samples(&samples);
    assert_eq!(pcm, samples.iter().flat_map(|s| s.to_le_bytes()).collect::<Vec<u8>>());
    assert_eq!(decode_samples(&pcm), samples);
    assert_eq!(encode_samples(&decode_samples(&[1, 2, 3])), vec![1, 2]);
    assert_eq!(zero_bytes(3), vec![0, 0, 0]);
}

// -- Devices --

#[test]
fn config_default() {
    let config = MicInputConfig::default();
    assert!(config.device_name.is_none());
    assert!(AudioPlayerConfig::default().device_name.is_none());
}

#[test]
fn chunking_task_produces_frames() {
    let chunk_bytes = 640;
    let mut captured: Vec<u8> = (0..chunk_bytes * 2).map(|i| i as u8).collect();
    let mut chunker = MicChunker::new(16000, 1, 16000);
    assert_eq!(chunker.resampling(), None);
    let chunks = chunker.push(&mut captured);
    let frames: Vec<AudioRawFrame> = chunks.into_iter().map(|c| chunker.frame(c)).collect();
    assert_eq!(frames.len(), 2);
    assert_eq!(frames[0].audio.len(), chunk_bytes);
    assert_eq!(frames[0].sample_rate, 16000);
    assert_eq!(frames[0].num_channels, 1);
}

#[test]
fn device_chunks_for_resampling() {
    let mut captured = vec![0u8; 2000];
    let mut chunker = MicChunker::new(48000, 1, 16000);
    assert_eq!(chunker.resampling(), Some((48000, 16000)));
    let chunks = chunker.push(&mut captured);
    assert_eq!(chunks.len(), 1);
    assert_eq!(chunks[0].len(), 1920);
    assert!(captured.is_empty());
    // 80 bytes wait for the rest of their chunk.
    assert_eq!(chunker.push(&mut vec![0; 1840]).len(), 1);
    let frame = chunker.frame(vec![0; 640]);
    assert_eq!((frame.sample_rate, frame.audio.len()), (16000, 640));
}

#[test]
fn newest_captured_audio_stays() {
    assert_eq!(max_buffer_bytes(48000, 2), 192000);
    let mut buffer = vec![1, 2, 3];
    assert_eq!(buffer_captured(&mut buffer, &mut vec![4, 5], 4), 1);
    assert_eq!(buffer, vec![2, 3, 4, 5]);
    assert_eq!(buffer_captured(&mut buffer, &mut vec![6], 9), 0);
    assert_eq!(buffer, vec![2, 3, 4, 5, 6]);
}

#[test]
fn microphone_starts_and_stops() {
    let mut mic = MicInput::new(
        TransportParams::default(),
        MicInputConfig { device_name: Some("usb".into()) },
    );
    assert_eq!(mic.config().device_name.as_deref(), Some("usb"));
    let actions = mic.process_frame(&envelope(start_frame(8000, 24000)), Direction::Downstream);
    assert!(matches!(actions.last(), Some(MicAction::StartCapture { target_rate: 8000 })));
    assert!(mic.inner().audio_in_sender());
    mic.capture_started();
    let actions = mic.process_frame(&envelope(start_frame(8000, 24000)), Direction::Downstream);
    assert!(matches!(
        actions[actions.len() - 2..],
        [MicAction::StopCapture, MicAction::StartCapture { target_rate: 8000 }]
    ));
    mic.capture_started();
    let actions = mic.process_frame(&envelope(Frame::End), Direction::Downstream);
    assert!(actions.iter().any(|a| matches!(a, MicAction::StopCapture)));
}

#[test]
fn player_opens_the_device_once() {
    let audio = make_input_audio(&[1, 2, 3], 16000);
    let mut player = AudioPlayer::new(AudioPlayerConfig { device_name: None });
    assert!(matches!(player.push_audio(), PlayerStep::OpenDevice));
    let step = player.opened(Some((48000, 2)), &audio);
    assert!(matches!(
        step,
        PlayerStep::Buffer { channels: 1, resample: Some((16000, 48000)), remap: Some((1, 2)) }
    ));
    // A tenth of a second of both channels starts the playback.
    assert!(!player.buffered(9599));
    assert!(player.buffered(9600));
    player.playing();
    assert!(!player.buffered(9600));
    let step = player.process_frame(&envelope(Frame::InputAudioRaw(make_input_audio(&[4], 16000))));
    assert!(matches!(step, PlayerStep::Buffer { .. }));
    let step = player.process_frame(&envelope(Frame::End));
    assert!(matches!(step, PlayerStep::DrainAndClose));
    assert!(matches!(player.push_audio(), PlayerStep::Pass));
    assert!(AudioPlayer::drain_is_over(true, 0));
    assert!(!AudioPlayer::drain_is_over(false, 499_999_999));
    assert!(AudioPlayer::drain_is_over(false, 500_000_000));
}

#[test]
fn player_without_a_device_is_silent() {
    let audio = make_input_audio(&[1], 16000);
    let mut player = AudioPlayer::new(AudioPlayerConfig { device_name: None });
    player.push_audio();
    assert!(matches!(player.opened(None, &audio), PlayerStep::Pass));
    assert!(matches!(player.push_audio(), PlayerStep::Pass));
}
