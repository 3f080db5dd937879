//! What all services have in common.
use vstd::prelude::*;

use crate::frames::{text_opt, StartFrame};

verus! {

/// Common state shared by all service processors: the name, the model that
/// measurements are reported for, and which measurements are reported.
#[derive(Debug)]
pub struct ServiceBase {
    name: String,
    model: Option<String>,
    metrics_enabled: bool,
    usage_metrics_enabled: bool,
    report_only_initial_ttfb: bool,
}

/// What a [`ServiceBase`] says.
pub struct ServiceBaseView {
    pub name: Seq<char>,
    pub model: Option<Seq<char>>,
    pub metrics_enabled: bool,
    pub usage_metrics_enabled: bool,
    pub report_only_initial_ttfb: bool,
}

impl View for ServiceBase {
    type V = ServiceBaseView;

    closed spec fn view(&self) -> ServiceBaseView {
        ServiceBaseView {
            name: self.name@,
            model: text_opt(self.model),
            metrics_enabled: self.metrics_enabled,
            usage_metrics_enabled: self.usage_metrics_enabled,
            report_only_initial_ttfb: self.report_only_initial_ttfb,
        }
    }
}

impl ServiceBaseView {
    /// A service that was just made.
    pub open spec fn fresh(name: Seq<char>, model: Option<Seq<char>>) -> ServiceBaseView {
        ServiceBaseView {
            name,
            model,
            metrics_enabled: false,
            usage_metrics_enabled: false,
            report_only_initial_ttfb: false,
        }
    }

    /// The service after a start frame.
    pub open spec fn started(self, frame: StartFrame) -> ServiceBaseView {
        ServiceBaseView {
            metrics_enabled: frame.enable_metrics,
            usage_metrics_enabled: frame.enable_usage_metrics,
            report_only_initial_ttfb: frame.report_only_initial_ttfb,
            ..self
        }
    }
}

impl ServiceBase {
    pub fn new(name: String, model: Option<String>) -> (r: Self)
        ensures
            r@ == ServiceBaseView::fresh(name@, text_opt(model)),
    {
        ServiceBase {
            name,
            model,
            metrics_enabled: false,
            usage_metrics_enabled: false,
            report_only_initial_ttfb: false,
        }
    }

    /// The name of the service.
    pub fn name(&self) -> (r: &str)
        ensures
            r@ == self@.name,
    {
        self.name.as_str()
    }

    /// The model that measurements are reported for.
    pub fn model(&self) -> (r: &Option<String>)
        ensures
            text_opt(*r) == self@.model,
    {
        &self.model
    }

    /// Handle a start frame: enable or disable metrics based on its flags.
    pub fn handle_start_frame(&mut self, frame: &StartFrame)
        ensures
            final(self)@ == old(self)@.started(*frame),
    {
        self.metrics_enabled = frame.enable_metrics;
        self.usage_metrics_enabled = frame.enable_usage_metrics;
        self.report_only_initial_ttfb = frame.report_only_initial_ttfb;
    }

    /// Set the model that measurements are reported for.
    pub fn set_model(&mut self, model: String)
        ensures
            final(self)@ == (ServiceBaseView { model: Some(model@), ..old(self)@ }),
    {
        self.model = Some(model);
    }

    /// Whether metrics reporting is enabled.
    pub fn metrics_enabled(&self) -> (r: bool)
        ensures
            r == self@.metrics_enabled,
    {
        self.metrics_enabled
    }

    /// Whether usage metrics reporting is enabled.
    pub fn usage_metrics_enabled(&self) -> (r: bool)
        ensures
            r == self@.usage_metrics_enabled,
    {
        self.usage_metrics_enabled
    }

    /// Whether only the first time to first byte is reported.
    pub fn report_only_initial_ttfb(&self) -> (r: bool)
        ensures
            r == self@.report_only_initial_ttfb,
    {
        self.report_only_initial_ttfb
    }
}

} // verus!
