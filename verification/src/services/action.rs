//! What speech services ask the program to do.
use bytes::Bytes;
use vstd::prelude::*;

use crate::frames::{Direction, Frame, FrameView};
use crate::payload::bytes_of;

verus! {

/// An action of a speech service. The program performs the actions of a frame
/// in their order; if one fails, it reports the error and drops the rest.
#[derive(Debug)]
pub enum ServiceAction {
    /// Push the frame at hand in the given direction.
    Forward(Direction),
    /// Send a new frame downstream.
    SendDownstream(Frame),
    /// Recognize the speech in audio.
    RunStt(Bytes),
    /// Synthesize speech from text.
    RunTts { text: String, context_id: String },
    /// Transcribe a segment of audio, then hand its text on.
    Transcribe(Vec<u8>),
    /// Forget measurements that are under way.
    ResetMetrics,
    /// Start to measure text aggregation.
    StartTextAggregation,
    /// Stop to measure text aggregation, and send the measurement.
    PushTextAggregationMetrics,
    /// Tell the service that text aggregation is no longer measured.
    FinishTextAggregation,
}

/// What a [`ServiceAction`] says.
pub enum ServiceActionView {
    Forward(Direction),
    SendDownstream(FrameView),
    RunStt(Seq<u8>),
    RunTts { text: Seq<char>, context_id: Seq<char> },
    Transcribe(Seq<u8>),
    ResetMetrics,
    StartTextAggregation,
    PushTextAggregationMetrics,
    FinishTextAggregation,
}

impl View for ServiceAction {
    type V = ServiceActionView;

    open spec fn view(&self) -> ServiceActionView {
        match *self {
            ServiceAction::Forward(d) => ServiceActionView::Forward(d),
            ServiceAction::SendDownstream(f) => ServiceActionView::SendDownstream(f@),
            ServiceAction::RunStt(b) => ServiceActionView::RunStt(bytes_of(b)),
            ServiceAction::RunTts { text, context_id } => ServiceActionView::RunTts {
                text: text@,
                context_id: context_id@,
            },
            ServiceAction::Transcribe(b) => ServiceActionView::Transcribe(b@),
            ServiceAction::ResetMetrics => ServiceActionView::ResetMetrics,
            ServiceAction::StartTextAggregation => ServiceActionView::StartTextAggregation,
            ServiceAction::PushTextAggregationMetrics => {
                ServiceActionView::PushTextAggregationMetrics
            },
            ServiceAction::FinishTextAggregation => ServiceActionView::FinishTextAggregation,
        }
    }
}

/// The actions in a list.
pub open spec fn service_actions_of(s: Seq<ServiceAction>) -> Seq<ServiceActionView> {
    s.map_values(|a: ServiceAction| a@)
}

/// Adds an action at the end of a list.
pub(crate) fn emit(list: &mut Vec<ServiceAction>, a: ServiceAction)
    ensures
        service_actions_of(final(list)@) == service_actions_of(old(list)@).push(a@),
{
    list.push(a);
    proof {
        assert(service_actions_of(list@) =~= service_actions_of(old(list)@).push(a@));
    }
}

} // verus!
