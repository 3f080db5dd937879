//! Speech recognition by a local Whisper model.
use vstd::prelude::*;
use vstd::string::*;

use crate::frames::{
    clone_audio, clone_text_opt, text_opt, Direction, Frame, FrameEnvelope, FrameView,
    TranscriptionOf,
};
use crate::payload::bytes_as_slice;
use crate::services::action::{emit, service_actions_of, ServiceAction, ServiceActionView};
use crate::services::settings::STTSettings;
use crate::services::stt::{SttModel, STTServiceState};
use crate::services::text_laws::{
    blank, cut_from, lemma_nothing_is_cut_from_whitespace, lemma_trimming_cuts_the_ends,
};
use crate::text::{trim, trimmed};
use crate::transport::mic_input::newest;

verus! {

/// One second of pre-speech audio at 16 kHz mono 16-bit PCM.
pub const PRE_SPEECH_BUFFER_BYTES: usize = 32000;

/// Whisper speech recognition.
///
/// Unlike streaming services, Whisper needs a complete audio segment. This
/// processor accumulates audio while the user is speaking and asks for
/// transcription once the user stops. The model itself is run by the program.
#[derive(Debug)]
pub struct WhisperSTTService {
    state: STTServiceState,
    audio_buf: Vec<u8>,
    language: Option<String>,
}

/// What a [`WhisperSTTService`] says.
pub struct WhisperModel {
    pub state: SttModel,
    /// The audio that waits to be transcribed.
    pub audio: Seq<u8>,
    pub language: Option<Seq<char>>,
}

impl View for WhisperSTTService {
    type V = WhisperModel;

    closed spec fn view(&self) -> WhisperModel {
        WhisperModel {
            state: self.state@,
            audio: self.audio_buf@,
            language: text_opt(self.language),
        }
    }
}

impl WhisperModel {
    /// Audio arrives: it is kept, but before speech only its last second.
    pub open spec fn listened(self, audio: Seq<u8>) -> WhisperModel {
        if self.state.muted {
            self
        } else if self.state.user_speaking {
            WhisperModel { audio: self.audio + audio, ..self }
        } else {
            WhisperModel {
                audio: newest(self.audio + audio, PRE_SPEECH_BUFFER_BYTES as nat),
                ..self
            }
        }
    }

    /// The user has stopped: what was heard is transcribed, unless the service
    /// is muted or nothing was heard.
    pub open spec fn transcribed(self) -> (WhisperModel, Seq<ServiceActionView>) {
        if self.state.muted || self.audio.len() == 0 {
            (self, Seq::empty())
        } else {
            (
                WhisperModel { audio: Seq::empty(), ..self },
                seq![ServiceActionView::Transcribe(self.audio)],
            )
        }
    }

    /// The service after a frame, and what the frame calls for.
    pub open spec fn processed(self, frame: FrameView, direction: Direction) -> (
        WhisperModel,
        Seq<ServiceActionView>,
    ) {
        let forward = seq![ServiceActionView::Forward(direction)];
        match frame {
            FrameView::InputAudioRaw(audio) => (
                self.listened(audio.audio),
                if self.state.audio_passthrough {
                    seq![ServiceActionView::SendDownstream(frame)]
                } else {
                    Seq::empty()
                },
            ),
            FrameView::VADUserStoppedSpeaking { .. } | FrameView::UserStoppedSpeaking => {
                let (m, actions) = WhisperModel {
                    state: self.state.noted(frame),
                    ..self
                }.transcribed();
                (m, actions + forward)
            },
            FrameView::Interruption => (
                WhisperModel { audio: Seq::empty(), ..self },
                seq![ServiceActionView::ResetMetrics] + forward,
            ),
            _ => (WhisperModel { state: self.state.noted(frame), ..self }, forward),
        }
    }
}

/// The texts in a list.
pub open spec fn texts_of(s: Seq<String>) -> Seq<Seq<char>> {
    s.map_values(|t: String| t@)
}

/// Texts put one behind the other, from the first to the last.
pub open spec fn assembled(texts: Seq<Seq<char>>) -> Seq<char>
    decreases texts.len(),
{
    if texts.len() == 0 {
        Seq::empty()
    } else {
        assembled(texts.drop_last()) + texts.last()
    }
}

impl WhisperSTTService {
    pub fn new(settings: STTSettings) -> (r: Self)
        ensures
            r@ == (WhisperModel {
                state: SttModel::fresh("WhisperSTT"@, settings@),
                audio: Seq::empty(),
                language: settings@.language,
            }),
    {
        let language = clone_text_opt(&settings.language);
        WhisperSTTService {
            state: STTServiceState::new("WhisperSTT".to_owned(), settings),
            audio_buf: Vec::new(),
            language,
        }
    }

    /// The state of the service.
    pub fn state(&self) -> (r: &STTServiceState)
        ensures
            r@ == self@.state,
    {
        &self.state
    }

    /// The language to transcribe.
    pub fn language(&self) -> (r: &Option<String>)
        ensures
            text_opt(*r) == self@.language,
    {
        &self.language
    }

    /// The frame for what the model understood, segment by segment. There is
    /// none if that is nothing but whitespace.
    pub fn transcription(&self, segments: &Vec<String>) -> (r: Option<Frame>)
        ensures
            ({
                let text = trimmed(assembled(texts_of(segments@)));
                if text.len() == 0 {
                    r is None
                } else {
                    r is Some && r->0@ == FrameView::Transcription(
                        TranscriptionOf {
                            text,
                            user_id: "user"@,
                            timestamp: None,
                            language: self@.language,
                            finalized: true,
                            result: None,
                        },
                    )
                }
            }),
            r is None <==> blank(assembled(texts_of(segments@))),
            r is Some ==> r->0@ is Transcription && cut_from(
                assembled(texts_of(segments@)),
                r->0@->Transcription_0.text,
            ),
    {
        let ghost all = texts_of(segments@);
        let mut whole = String::new();
        let mut i: usize = 0;
        while i < segments.len()
            invariant
                i <= segments@.len(),
                all == texts_of(segments@),
                whole@ == assembled(all.take(i as int)),
            decreases segments@.len() - i,
        {
            whole.append(segments[i].as_str());
            proof {
                assert(all.take(i + 1).drop_last() =~= all.take(i as int));
            }
            i = i + 1;
        }
        proof {
            assert(all.take(all.len() as int) =~= all);
        }
        let text = trim(whole.as_str());
        proof {
            lemma_trimming_cuts_the_ends(whole@);
            lemma_nothing_is_cut_from_whitespace(whole@, text@);
        }
        if text.as_str().is_empty() {
            return None;
        }
        Some(
            Frame::Transcription(
                TranscriptionOf {
                    text,
                    user_id: "user".to_owned(),
                    timestamp: None,
                    language: clone_text_opt(&self.language),
                    finalized: true,
                    result: None,
                },
            ),
        )
    }

    /// Keeps audio.
    fn listen(&mut self, audio: &[u8])
        ensures
            final(self)@ == old(self)@.listened(audio@),
    {
        if self.state.muted {
            return;
        }
        self.audio_buf.extend_from_slice(audio);
        let ghost whole = self.audio_buf@;
        assert(whole =~= old(self).audio_buf@ + audio@);
        if !self.state.user_speaking && self.audio_buf.len() > PRE_SPEECH_BUFFER_BYTES {
            let excess: usize = self.audio_buf.len() - PRE_SPEECH_BUFFER_BYTES;
            self.audio_buf = self.audio_buf.split_off(excess);
            proof {
                assert(self.audio_buf@ =~= newest(whole, PRE_SPEECH_BUFFER_BYTES as nat));
            }
        }
    }

    /// Asks for what was heard to be transcribed.
    fn transcribe(&mut self, actions: &mut Vec<ServiceAction>)
        ensures
            final(self)@ == old(self)@.transcribed().0,
            service_actions_of(final(actions)@) == service_actions_of(old(actions)@)
                + old(self)@.transcribed().1,
    {
        if !self.state.muted && self.audio_buf.len() > 0 {
            let mut audio: Vec<u8> = Vec::new();
            std::mem::swap(&mut self.audio_buf, &mut audio);
            emit(actions, ServiceAction::Transcribe(audio));
        }
        proof {
            assert(service_actions_of(actions@) =~= service_actions_of(old(actions)@) + old(
                self,
            )@.transcribed().1);
        }
    }

    /// Processes a frame.
    pub fn process_frame(&mut self, envelope: &FrameEnvelope, direction: Direction) -> (r: Vec<
        ServiceAction,
    >)
        ensures
            (final(self)@, service_actions_of(r@)) == old(self)@.processed(
                envelope@.frame,
                direction,
            ),
    {
        let ghost pre = self@;
        let mut actions: Vec<ServiceAction> = Vec::new();
        match &envelope.frame {
            Frame::InputAudioRaw(audio) => {
                if self.state.audio_passthrough {
                    emit(
                        &mut actions,
                        ServiceAction::SendDownstream(Frame::InputAudioRaw(clone_audio(audio))),
                    );
                }
                self.listen(bytes_as_slice(&audio.audio));
            },
            Frame::VADUserStoppedSpeaking { .. } | Frame::UserStoppedSpeaking => {
                self.state.note(&envelope.frame);
                self.transcribe(&mut actions);
                emit(&mut actions, ServiceAction::Forward(direction));
            },
            Frame::Interruption => {
                self.audio_buf.clear();
                emit(&mut actions, ServiceAction::ResetMetrics);
                emit(&mut actions, ServiceAction::Forward(direction));
            },
            _ => {
                self.state.note(&envelope.frame);
                emit(&mut actions, ServiceAction::Forward(direction));
            },
        }
        proof {
            assert(service_actions_of(actions@) =~= pre.processed(envelope@.frame, direction).1);
        }
        actions
    }
}

/// The name of a model's file.
pub open spec fn model_file(model_name: Seq<char>) -> Seq<char> {
    "ggml-"@ + model_name + ".bin"@
}

/// The name of a model's file.
pub fn model_filename(model_name: &str) -> (r: String)
    ensures
        r@ == model_file(model_name@),
{
    "ggml-".to_owned().concat(model_name).concat(".bin")
}

/// Where a model can be downloaded from.
pub fn model_url(model_name: &str) -> (r: String)
    ensures
        r@ == "https://huggingface.co/ggerganov/whisper.cpp/resolve/main/"@ + model_file(
            model_name@,
        ),
{
    "https://huggingface.co/ggerganov/whisper.cpp/resolve/main/".to_owned().concat(
        model_filename(model_name).as_str(),
    )
}

/// While the user is not speaking, the service keeps at most one second of
/// audio, and no more after any amount of it.
pub proof fn lemma_pre_speech_audio_is_bounded(m: WhisperModel, audio: Seq<u8>)
    requires
        !m.state.user_speaking,
        !m.state.muted,
    ensures
        m.listened(audio).audio.len() <= PRE_SPEECH_BUFFER_BYTES,
{
}

} // verus!
