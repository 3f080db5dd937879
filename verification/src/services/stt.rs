//! Speech recognition services.
use vstd::prelude::*;
use vstd::string::*;

use crate::frames::{clone_audio, clone_text_opt, Direction, Frame, FrameEnvelope, FrameView};
use crate::services::action::{emit, service_actions_of, ServiceAction, ServiceActionView};
use crate::services::service_base::{ServiceBase, ServiceBaseView};
use crate::services::settings::{names_in, Settings, STTSettings, STTSettingsView};
use crate::text::text_eq;

verus! {

/// State held by speech recognition services.
#[derive(Debug)]
pub struct STTServiceState {
    pub base: ServiceBase,
    pub settings: STTSettings,
    pub sample_rate: u32,
    pub muted: bool,
    pub audio_passthrough: bool,
    pub user_speaking: bool,
}

/// What an [`STTServiceState`] says.
pub struct SttModel {
    pub base: ServiceBaseView,
    pub settings: STTSettingsView,
    pub sample_rate: u32,
    pub muted: bool,
    pub audio_passthrough: bool,
    pub user_speaking: bool,
}

impl View for STTServiceState {
    type V = SttModel;

    open spec fn view(&self) -> SttModel {
        SttModel {
            base: self.base@,
            settings: self.settings@,
            sample_rate: self.sample_rate,
            muted: self.muted,
            audio_passthrough: self.audio_passthrough,
            user_speaking: self.user_speaking,
        }
    }
}

impl SttModel {
    /// A service that was just made.
    pub open spec fn fresh(name: Seq<char>, settings: STTSettingsView) -> SttModel {
        SttModel {
            base: ServiceBaseView::fresh(name, settings.model),
            settings,
            sample_rate: 0,
            muted: false,
            audio_passthrough: true,
            user_speaking: false,
        }
    }

    /// The service after its settings were changed. A new model is the one that
    /// measurements are reported for.
    pub open spec fn updated(
        self,
        delta: Map<Seq<char>, crate::json::Json>,
    ) -> SttModel {
        let settings = self.settings.applied(delta);
        SttModel {
            settings,
            base: if self.settings.changes(delta).contains("model"@) && settings.model is Some {
                ServiceBaseView { model: settings.model, ..self.base }
            } else {
                self.base
            },
            ..self
        }
    }

    /// The service after a frame that is not audio.
    pub open spec fn noted(self, frame: FrameView) -> SttModel {
        match frame {
            FrameView::Start(f) => SttModel {
                base: self.base.started(f),
                sample_rate: if self.sample_rate == 0 {
                    f.audio_in_sample_rate
                } else {
                    self.sample_rate
                },
                ..self
            },
            FrameView::STTMute { mute } => SttModel { muted: mute, ..self },
            FrameView::STTUpdateSettings(delta) => self.updated(delta),
            FrameView::UserStartedSpeaking
            | FrameView::VADUserStartedSpeaking { .. } => SttModel { user_speaking: true, ..self },
            FrameView::UserStoppedSpeaking
            | FrameView::VADUserStoppedSpeaking { .. } => SttModel {
                user_speaking: false,
                ..self
            },
            _ => self,
        }
    }

    /// What a frame calls for: audio is passed on if so configured, and
    /// recognized unless the service is muted.
    pub open spec fn actions(self, frame: FrameView, direction: Direction) -> Seq<
        ServiceActionView,
    > {
        match frame {
            FrameView::InputAudioRaw(audio) => {
                (if self.audio_passthrough {
                    seq![ServiceActionView::SendDownstream(frame)]
                } else {
                    Seq::empty()
                }) + (if !self.muted {
                    seq![ServiceActionView::RunStt(audio.audio)]
                } else {
                    Seq::empty()
                })
            },
            FrameView::Interruption => seq![
                ServiceActionView::ResetMetrics,
                ServiceActionView::Forward(direction),
            ],
            _ => seq![ServiceActionView::Forward(direction)],
        }
    }
}

/// Whether a list of names holds a name.
pub(crate) fn lists(names: &Vec<String>, name: &str) -> (r: bool)
    ensures
        r == names_in(names@).contains(name@),
{
    let ghost all = names_in(names@);
    let mut i: usize = 0;
    while i < names.len()
        invariant
            i <= names@.len(),
            all == names_in(names@),
            forall|j: int| 0 <= j < i ==> all[j] != name@,
        decreases names@.len() - i,
    {
        if text_eq(names[i].as_str(), name) {
            assert(all[i as int] == name@);
            return true;
        }
        i = i + 1;
    }
    false
}

impl STTServiceState {
    pub fn new(name: String, settings: STTSettings) -> (r: Self)
        ensures
            r@ == SttModel::fresh(name@, settings@),
    {
        let model = clone_text_opt(&settings.model);
        STTServiceState {
            base: ServiceBase::new(name, model),
            settings,
            sample_rate: 0,
            muted: false,
            audio_passthrough: true,
            user_speaking: false,
        }
    }

    /// Changes the settings.
    pub fn update_settings(&mut self, delta: &Settings)
        ensures
            final(self)@ == old(self)@.updated(delta@),
    {
        let changed = self.settings.apply_delta(delta);
        if lists(&changed, "model") {
            if let Some(model) = &self.settings.model {
                self.base.set_model(model.clone());
            }
        }
    }

    /// Takes note of a frame that is not audio.
    pub fn note(&mut self, frame: &Frame)
        ensures
            final(self)@ == old(self)@.noted(frame@),
    {
        match frame {
            Frame::Start(f) => {
                self.base.handle_start_frame(f);
                if self.sample_rate == 0 {
                    self.sample_rate = f.audio_in_sample_rate;
                }
            },
            Frame::STTMute { mute } => {
                self.muted = *mute;
            },
            Frame::STTUpdateSettings(delta) => {
                self.update_settings(delta);
            },
            Frame::UserStartedSpeaking | Frame::VADUserStartedSpeaking { .. } => {
                self.user_speaking = true;
            },
            Frame::UserStoppedSpeaking | Frame::VADUserStoppedSpeaking { .. } => {
                self.user_speaking = false;
            },
            _ => {},
        }
    }
}

/// Common frame routing for speech recognition services.
pub fn stt_process_frame(
    state: &mut STTServiceState,
    envelope: &FrameEnvelope,
    direction: Direction,
) -> (r: Vec<ServiceAction>)
    ensures
        final(state)@ == old(state)@.noted(envelope@.frame),
        service_actions_of(r@) == old(state)@.actions(envelope@.frame, direction),
{
    let mut actions: Vec<ServiceAction> = Vec::new();
    match &envelope.frame {
        Frame::InputAudioRaw(audio) => {
            if state.audio_passthrough {
                emit(
                    &mut actions,
                    ServiceAction::SendDownstream(Frame::InputAudioRaw(clone_audio(audio))),
                );
            }
            if !state.muted {
                emit(&mut actions, ServiceAction::RunStt(audio.audio.clone()));
            }
        },
        Frame::Interruption => {
            emit(&mut actions, ServiceAction::ResetMetrics);
            emit(&mut actions, ServiceAction::Forward(direction));
        },
        _ => {
            state.note(&envelope.frame);
            emit(&mut actions, ServiceAction::Forward(direction));
        },
    }
    proof {
        assert(service_actions_of(actions@) =~= old(state)@.actions(envelope@.frame, direction));
    }
    actions
}

/// A muted service recognizes no audio.
pub proof fn lemma_muted_service_is_deaf(m: SttModel, frame: FrameView, direction: Direction)
    requires
        m.muted,
    ensures
        forall|i: int|
            0 <= i < m.actions(frame, direction).len() ==> !((#[trigger] m.actions(
                frame,
                direction,
            )[i]) is RunStt),
{
}

} // verus!
