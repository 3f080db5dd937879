//! What language model services have in common.
use vstd::prelude::*;
use vstd::string::*;

use crate::frames::{clone_text_opt, Direction, Frame, FrameEnvelope, FrameView};
use crate::json::Json;
use crate::services::action::{emit, service_actions_of, ServiceAction, ServiceActionView};
use crate::services::service_base::{ServiceBase, ServiceBaseView};
use crate::services::settings::{LLMSettings, LLMSettingsView, Settings};
use crate::services::stt::lists;

verus! {

/// State held by language model services.
#[derive(Debug)]
pub struct LLMServiceState {
    pub base: ServiceBase,
    pub settings: LLMSettings,
    /// Whether text of the service is left out of speech.
    pub skip_tts: Option<bool>,
}

/// What an [`LLMServiceState`] says.
pub struct LlmModel {
    pub base: ServiceBaseView,
    pub settings: LLMSettingsView,
    pub skip_tts: Option<bool>,
}

impl View for LLMServiceState {
    type V = LlmModel;

    open spec fn view(&self) -> LlmModel {
        LlmModel { base: self.base@, settings: self.settings@, skip_tts: self.skip_tts }
    }
}

impl LlmModel {
    /// A service that was just made.
    pub open spec fn fresh(name: Seq<char>, settings: LLMSettingsView) -> LlmModel {
        LlmModel {
            base: ServiceBaseView::fresh(name, settings.model),
            settings,
            skip_tts: None,
        }
    }

    /// The service after its settings were changed. A new model is the one that
    /// measurements are reported for.
    pub open spec fn updated(self, delta: Map<Seq<char>, Json>) -> LlmModel {
        let settings = self.settings.applied(delta);
        LlmModel {
            settings,
            base: if self.settings.changes(delta).contains("model"@) && settings.model is Some {
                ServiceBaseView { model: settings.model, ..self.base }
            } else {
                self.base
            },
            ..self
        }
    }

    /// The service after a frame.
    pub open spec fn noted(self, frame: FrameView) -> LlmModel {
        match frame {
            FrameView::Start(f) => LlmModel { base: self.base.started(f), ..self },
            FrameView::LLMUpdateSettings(delta) => self.updated(delta),
            _ => self,
        }
    }

    /// What a frame calls for: it is pushed on, and an interruption ends
    /// measurements.
    pub open spec fn actions(frame: FrameView, direction: Direction) -> Seq<ServiceActionView> {
        if frame is Interruption {
            seq![ServiceActionView::ResetMetrics, ServiceActionView::Forward(direction)]
        } else {
            seq![ServiceActionView::Forward(direction)]
        }
    }
}

impl LLMServiceState {
    pub fn new(name: String, settings: LLMSettings) -> (r: Self)
        ensures
            r@ == LlmModel::fresh(name@, settings@),
    {
        let model = clone_text_opt(&settings.model);
        LLMServiceState { base: ServiceBase::new(name, model), settings, skip_tts: None }
    }

    /// Changes the settings.
    pub fn update_settings(&mut self, delta: &Settings)
        ensures
            final(self)@ == old(self)@.updated(delta@),
    {
        let changed = self.settings.apply_delta(delta);
        if lists(&changed, "model") {
            if let Some(model) = &self.settings.model {
                self.base.set_model(model.clone());
            }
        }
    }
}

/// Common frame routing for language model services.
pub fn llm_process_frame(
    state: &mut LLMServiceState,
    envelope: &FrameEnvelope,
    direction: Direction,
) -> (r: Vec<ServiceAction>)
    ensures
        final(state)@ == old(state)@.noted(envelope@.frame),
        service_actions_of(r@) == LlmModel::actions(envelope@.frame, direction),
{
    let mut actions: Vec<ServiceAction> = Vec::new();
    match &envelope.frame {
        Frame::Start(frame) => {
            state.base.handle_start_frame(frame);
        },
        Frame::LLMUpdateSettings(delta) => {
            state.update_settings(delta);
        },
        Frame::Interruption => {
            emit(&mut actions, ServiceAction::ResetMetrics);
        },
        _ => {},
    }
    emit(&mut actions, ServiceAction::Forward(direction));
    proof {
        assert(service_actions_of(actions@) =~= LlmModel::actions(envelope@.frame, direction));
    }
    actions
}

} // verus!
