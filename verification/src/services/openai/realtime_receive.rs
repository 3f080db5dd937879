//! The receiving of server events by the OpenAI Realtime service.
use vstd::prelude::*;
use vstd::string::*;

use crate::frames::{
    calls_of, clone_text_opt, metrics_of, text_opt, AggregatedTextFrameOf, Frame, FrameView,
    FunctionCallFromLLM, FunctionCallOf, InterimTranscriptionOf, LlmTokenUsage, MetricsData,
    MetricsOf, TTSAudioOf, TextOf, TranscriptionOf,
};
use crate::json::{json_of, parse_value, parsed_json, Json};
use crate::payload::bytes_from;
use crate::services::openai::llm::{
    arguments_of, call_completed, call_in_progress, call_result, context_parts, copy_call,
    no_context, parse_arguments, progress_frame, result_frame, result_of, CallOutcome,
    ContextParts,
};
use crate::services::openai::media::{base64_decoded, decode_base64};
use crate::services::openai::realtime::{
    build_session_properties, emit, initial_properties, output_item, realtime_actions_of,
    result_item, ClientEvent, ClientEventView, RealtimeAction, RealtimeActionView,
};
use crate::services::openai::realtime_events::{
    describes, is_item_id, make_item_id, parse_server_event, ConversationItem, ConversationItemView,
    RealtimeErrorView, Response, ResponseView, ServerEvent, ServerEventView, Usage,
};
use crate::services::openai::realtime_state::{
    AudioResponseView, CurrentAudioResponse, SharedModel, SharedRealtimeState,
};
use crate::services::openai::settings::{OpenAIRealtimeSettings, OpenAIRealtimeSettingsView};
use crate::text::text_eq;
use crate::transport::audio_output::since;

verus! {

/// The sample rate of the audio that the server sends.
pub const OUTPUT_SAMPLE_RATE: u32 = 24000;

/// A message of the connection.
#[derive(Debug)]
pub enum ServerMessage {
    /// A text.
    Text(String),
    /// The server closed the connection.
    Closed,
    /// Reading failed.
    Failed(String),
    /// Anything else.
    Other,
}

/// No action.
pub open spec fn silence() -> Seq<RealtimeActionView> {
    Seq::empty()
}

/// A frame sent downstream.
pub open spec fn downstream(frame: FrameView) -> Seq<RealtimeActionView> {
    seq![RealtimeActionView::SendDownstream(frame)]
}

/// The frame for a text of the model.
pub open spec fn model_text(text: Seq<char>) -> FrameView {
    FrameView::LLMText(
        TextOf {
            text,
            skip_tts: None,
            includes_inter_frame_spaces: false,
            append_to_context: false,
        },
    )
}

/// The frame for a text that is spoken.
pub open spec fn spoken_text(text: Seq<char>) -> FrameView {
    FrameView::TTSText(
        AggregatedTextFrameOf {
            text,
            aggregated_by: "realtime"@,
            context_id: None,
            skip_tts: None,
            includes_inter_frame_spaces: false,
            append_to_context: false,
        },
    )
}

/// The measurement of a response's tokens.
pub open spec fn usage_metric(usage: Usage, model: Option<Seq<char>>) -> MetricsOf<Seq<char>> {
    MetricsOf::LlmUsage {
        processor: "OpenAIRealtimeService"@,
        model,
        value: LlmTokenUsage {
            prompt_tokens: usage.input_tokens,
            completion_tokens: usage.output_tokens,
            total_tokens: usage.total_tokens,
            cache_read_input_tokens: match usage.input_token_details {
                Some(d) => d.cached_tokens,
                None => None,
            },
            cache_creation_input_tokens: None,
            reasoning_tokens: None,
        },
    }
}

/// The measurements of a response that is done.
pub open spec fn response_metrics(
    usage: Option<Usage>,
    model: Option<Seq<char>>,
    start: Option<u64>,
    now: u64,
) -> Seq<MetricsOf<Seq<char>>> {
    (match usage {
        Some(u) => seq![usage_metric(u, model)],
        None => Seq::empty(),
    }) + (match start {
        Some(t) => seq![
            MetricsOf::Processing {
                processor: "OpenAIRealtimeService"@,
                model,
                nanos: since(now, t),
            },
        ],
        None => Seq::empty(),
    })
}

/// Whether an error is expected, and not fatal.
pub open spec fn is_expected(error: RealtimeErrorView) -> bool {
    error.code == Some("response_cancel_not_active"@) || error.code == Some(
        "conversation_already_has_active_response"@,
    )
}

/// The code of an error, empty where it has none.
pub open spec fn code_of(error: RealtimeErrorView) -> Seq<char> {
    match error.code {
        Some(code) => code,
        None => Seq::empty(),
    }
}

/// The report of an error.
pub open spec fn error_report(error: RealtimeErrorView) -> Seq<char> {
    "OpenAI Realtime error: "@ + error.message + " ("@ + code_of(error) + ")"@
}

/// The call that an item and its arguments ask for.
pub open spec fn call_of(item: ConversationItemView, call_id: Seq<char>, arguments: Seq<char>) ->
    FunctionCallOf<Seq<char>, Json> {
    FunctionCallOf {
        function_name: match item.name {
            Some(name) => name,
            None => Seq::empty(),
        },
        tool_call_id: call_id,
        arguments: arguments_of(arguments),
    }
}

impl SharedModel {
    /// Audio of a response arrives.
    pub open spec fn audio_arrived(
        self,
        item_id: Seq<char>,
        content_index: u32,
        data: Seq<u8>,
        now_ms: u64,
    ) -> (SharedModel, Seq<RealtimeActionView>) {
        let current = match self.audio {
            Some(a) => a,
            None => AudioResponseView {
                item_id,
                content_index,
                start_time_ms: now_ms,
                total_size: 0,
            },
        };
        let total = current.total_size + data.len();
        (
            SharedModel {
                audio: Some(
                    AudioResponseView {
                        total_size: if total <= usize::MAX {
                            total as usize
                        } else {
                            usize::MAX
                        },
                        ..current
                    },
                ),
                ttfb_reported: true,
                ..self
            },
            (if self.audio is None {
                downstream(FrameView::TTSStarted { context_id: None })
            } else {
                silence()
            }) + downstream(
                FrameView::TTSAudioRaw(
                    TTSAudioOf {
                        audio: data,
                        sample_rate: OUTPUT_SAMPLE_RATE,
                        num_channels: 1,
                        context_id: None,
                    },
                ),
            ),
        )
    }

    /// The user starts to speak: audio that was not heard is cut off, and the
    /// pipeline is interrupted.
    pub open spec fn speech_started(self, now_ms: u64) -> (SharedModel, Seq<RealtimeActionView>) {
        (
            SharedModel { audio: None, ..self },
            (match self.audio {
                Some(audio) => seq![
                    RealtimeActionView::Send(
                        ClientEventView::ItemTruncate {
                            item_id: audio.item_id,
                            content_index: audio.content_index,
                            audio_end_ms: audio.heard_ms(now_ms) as u64,
                        },
                    ),
                ],
                None => silence(),
            }) + seq![
                RealtimeActionView::Broadcast(FrameView::UserStartedSpeaking),
                RealtimeActionView::Broadcast(FrameView::Interruption),
            ],
        )
    }

    /// An item was added to the conversation. A function call waits for its
    /// arguments; an item of the assistant that this side did not create begins
    /// a response.
    pub open spec fn item_added(self, item: ConversationItemView) -> (
        SharedModel,
        Seq<RealtimeActionView>,
    ) {
        (
            SharedModel {
                pending: if item.item_type == "function_call"@ && item.call_id is Some
                    && !self.pending.dom().contains(item.call_id->0) {
                    self.pending.insert(item.call_id->0, item)
                } else {
                    self.pending
                },
                manual: self.manual.remove(item.id),
                ..self
            },
            if !self.manual.contains(item.id) && item.role == Some("assistant"@) {
                downstream(FrameView::LLMFullResponseStart { skip_tts: None })
            } else {
                silence()
            },
        )
    }

    /// The arguments of a function call are complete. A call that is not waited
    /// for is passed over.
    pub open spec fn arguments_done(self, call_id: Seq<char>, arguments: Seq<char>) -> (
        SharedModel,
        Seq<RealtimeActionView>,
    ) {
        if self.pending.dom().contains(call_id) {
            let call = call_of(self.pending[call_id], call_id, arguments);
            (
                SharedModel { pending: self.pending.remove(call_id), ..self },
                seq![
                    RealtimeActionView::Broadcast(FrameView::FunctionCallsStarted(seq![call])),
                    RealtimeActionView::CallFunction(call),
                ],
            )
        } else {
            (self, silence())
        }
    }

    /// The function of a call was looked up: the call is announced, and then
    /// carried out.
    pub open spec fn function_found(
        self,
        call: FunctionCallOf<Seq<char>, Json>,
        registered: Option<bool>,
    ) -> Seq<RealtimeActionView> {
        seq![
            RealtimeActionView::Broadcast(progress_frame(call, registered)),
            RealtimeActionView::RunFunction {
                call,
                context: match self.context {
                    Some(context) => context_parts(context),
                    None => no_context(),
                },
            },
        ]
    }

    /// A response is done.
    pub open spec fn response_done(
        self,
        response: ResponseView,
        model: Option<Seq<char>>,
        now: u64,
    ) -> (SharedModel, Seq<RealtimeActionView>) {
        let metrics = response_metrics(response.usage, model, self.processing_start, now);
        (
            SharedModel { processing_start: None, ..self },
            (if metrics.len() > 0 {
                downstream(FrameView::Metrics(metrics))
            } else {
                silence()
            }) + downstream(FrameView::LLMFullResponseEnd { skip_tts: None }),
        )
    }

    /// The state after a server event, and what the event calls for.
    pub open spec fn event_taken(
        self,
        settings: OpenAIRealtimeSettingsView,
        event: ServerEventView,
        now: u64,
        now_ms: u64,
    ) -> (SharedModel, Seq<RealtimeActionView>) {
        match event {
            ServerEventView::SessionCreated => (
                self,
                seq![
                    RealtimeActionView::Send(
                        ClientEventView::SessionUpdate(initial_properties(settings)),
                    ),
                ],
            ),
            ServerEventView::SessionUpdated => (
                SharedModel { ready: true, run_when_ready: false, ..self },
                if self.run_when_ready {
                    seq![RealtimeActionView::Send(ClientEventView::ResponseCreate(None))]
                } else {
                    silence()
                },
            ),
            ServerEventView::ResponseAudioDelta { item_id, content_index, delta } => {
                match base64_decoded(delta) {
                    Some(data) => self.audio_arrived(item_id, content_index, data, now_ms),
                    None => (self, silence()),
                }
            },
            ServerEventView::ResponseAudioDone { .. } => (
                self,
                downstream(FrameView::TTSStopped { context_id: None }),
            ),
            ServerEventView::ResponseTextDelta { delta } => (self, downstream(model_text(delta))),
            ServerEventView::ResponseAudioTranscriptDelta { delta } => (
                self,
                downstream(model_text(delta)) + downstream(spoken_text(delta)),
            ),
            ServerEventView::SpeechStarted { .. } => self.speech_started(now_ms),
            ServerEventView::SpeechStopped { .. } => (
                self,
                seq![RealtimeActionView::Broadcast(FrameView::UserStoppedSpeaking)],
            ),
            ServerEventView::TranscriptionCompleted { transcript } => (
                self,
                seq![
                    RealtimeActionView::SendUpstream(
                        FrameView::Transcription(
                            TranscriptionOf {
                                text: transcript,
                                user_id: Seq::empty(),
                                timestamp: None,
                                language: None,
                                finalized: true,
                                result: None,
                            },
                        ),
                    ),
                ],
            ),
            ServerEventView::TranscriptionDelta { delta } => (
                self,
                seq![
                    RealtimeActionView::SendUpstream(
                        FrameView::InterimTranscription(
                            InterimTranscriptionOf {
                                text: delta,
                                user_id: Seq::empty(),
                                timestamp: None,
                                language: None,
                                result: None,
                            },
                        ),
                    ),
                ],
            ),
            ServerEventView::ConversationItemAdded { item } => self.item_added(item),
            ServerEventView::FunctionCallArgumentsDone { call_id, arguments } => {
                self.arguments_done(call_id, arguments)
            },
            ServerEventView::ResponseDone { response } => self.response_done(
                response,
                settings.base.model,
                now,
            ),
            ServerEventView::Error { error } => (
                self,
                if is_expected(error) {
                    silence()
                } else {
                    seq![
                        RealtimeActionView::PushError(error_report(error)),
                        RealtimeActionView::Stop,
                    ]
                },
            ),
            ServerEventView::Unknown { .. } => (self, silence()),
        }
    }

    /// The state after a function call, and what its result calls for: the
    /// result goes to the pipeline and to the server, which is asked to go on.
    pub open spec fn function_done(
        self,
        call: FunctionCallOf<Seq<char>, Json>,
        result: Json,
        id: Seq<char>,
    ) -> (SharedModel, Seq<RealtimeActionView>) {
        (
            SharedModel { completed: self.completed.insert(call.tool_call_id), ..self },
            seq![
                RealtimeActionView::Broadcast(result_frame(call, result)),
                RealtimeActionView::Send(
                    ClientEventView::ItemCreate(output_item(id, call.tool_call_id, result)),
                ),
                RealtimeActionView::Send(ClientEventView::ResponseCreate(None)),
            ],
        )
    }
}

impl SharedRealtimeState {
    fn take_audio(
        &mut self,
        item_id: String,
        content_index: u32,
        data: Vec<u8>,
        now_ms: u64,
        actions: &mut Vec<RealtimeAction>,
    )
        requires
            old(self).wf(),
        ensures
            final(self).wf(),
            ({
                let (s, more) = old(self)@.audio_arrived(item_id@, content_index, data@, now_ms);
                &&& final(self)@ == s
                &&& realtime_actions_of(final(actions)@) == realtime_actions_of(old(actions)@)
                    + more
            }),
    {
        let ghost pre = self@;
        let ghost before = realtime_actions_of(actions@);
        let ghost (said_id, said_data) = (item_id@, data@);
        let len: usize = data.len();
        let mut current = match &self.current_audio_response {
            Some(c) => CurrentAudioResponse {
                item_id: c.item_id.clone(),
                content_index: c.content_index,
                start_time_ms: c.start_time_ms,
                total_size: c.total_size,
            },
            None => {
                // The first audio of the response.
                emit(
                    actions,
                    RealtimeAction::SendDownstream(Frame::TTSStarted { context_id: None }),
                );
                CurrentAudioResponse {
                    item_id,
                    content_index,
                    start_time_ms: now_ms,
                    total_size: 0,
                }
            },
        };
        current.total_size = if len <= usize::MAX - current.total_size {
            current.total_size + len
        } else {
            usize::MAX
        };
        self.current_audio_response = Some(current);
        self.ttfb_reported = true;
        emit(
            actions,
            RealtimeAction::SendDownstream(
                Frame::TTSAudioRaw(
                    TTSAudioOf {
                        audio: bytes_from(data),
                        sample_rate: OUTPUT_SAMPLE_RATE,
                        num_channels: 1,
                        context_id: None,
                    },
                ),
            ),
        );
        proof {
            assert(realtime_actions_of(actions@) =~= before + pre.audio_arrived(
                said_id,
                content_index,
                said_data,
                now_ms,
            ).1);
        }
    }

    fn take_speech_started(&mut self, now_ms: u64, actions: &mut Vec<RealtimeAction>)
        requires
            old(self).wf(),
        ensures
            final(self).wf(),
            ({
                let (s, more) = old(self)@.speech_started(now_ms);
                &&& final(self)@ == s
                &&& realtime_actions_of(final(actions)@) == realtime_actions_of(old(actions)@)
                    + more
            }),
    {
        let ghost pre = self@;
        let ghost before = realtime_actions_of(actions@);
        let mut current = None;
        std::mem::swap(&mut self.current_audio_response, &mut current);
        if let Some(current) = current {
            let audio_end_ms: u64 = current.truncate_ms(now_ms);
            emit(
                actions,
                RealtimeAction::Send(
                    ClientEvent::ItemTruncate {
                        item_id: current.item_id,
                        content_index: current.content_index,
                        audio_end_ms,
                    },
                ),
            );
        }
        emit(actions, RealtimeAction::Broadcast(Frame::UserStartedSpeaking));
        emit(actions, RealtimeAction::Broadcast(Frame::Interruption));
        proof {
            assert(realtime_actions_of(actions@) =~= before + pre.speech_started(now_ms).1);
        }
    }

    fn take_item(&mut self, item: ConversationItem, actions: &mut Vec<RealtimeAction>)
        requires
            old(self).wf(),
        ensures
            final(self).wf(),
            ({
                let (s, more) = old(self)@.item_added(item@);
                &&& final(self)@ == s
                &&& realtime_actions_of(final(actions)@) == realtime_actions_of(old(actions)@)
                    + more
            }),
    {
        let ghost pre = self@;
        let ghost before = realtime_actions_of(actions@);
        let ghost said = item@;
        let was_manual = self.messages_added_manually.remove(item.id.as_str());
        let from_assistant = match &item.role {
            Some(role) => text_eq(role.as_str(), "assistant"),
            None => false,
        };
        if text_eq(item.item_type.as_str(), "function_call") {
            if let Some(call_id) = clone_text_opt(&item.call_id) {
                if !self.pending_function_calls.contains(call_id.as_str()) {
                    self.pending_function_calls.insert(call_id, item);
                }
            }
        }
        if !was_manual && from_assistant {
            emit(
                actions,
                RealtimeAction::SendDownstream(Frame::LLMFullResponseStart { skip_tts: None }),
            );
        }
        proof {
            assert(realtime_actions_of(actions@) =~= before + pre.item_added(said).1);
        }
    }

    fn take_arguments(
        &mut self,
        call_id: &str,
        arguments: &str,
        actions: &mut Vec<RealtimeAction>,
    )
        requires
            old(self).wf(),
        ensures
            final(self).wf(),
            ({
                let (s, more) = old(self)@.arguments_done(call_id@, arguments@);
                &&& final(self)@ == s
                &&& realtime_actions_of(final(actions)@) == realtime_actions_of(old(actions)@)
                    + more
            }),
    {
        let ghost pre = self@;
        let ghost before = realtime_actions_of(actions@);
        match self.pending_function_calls.remove(call_id) {
            Some(item) => {
                let ghost said = item@;
                let name = match item.name {
                    Some(name) => name,
                    None => String::new(),
                };
                let call = FunctionCallOf {
                    function_name: name,
                    tool_call_id: call_id.to_owned(),
                    arguments: parse_arguments(arguments),
                };
                assert(call@ == call_of(said, call_id@, arguments@));
                let mut calls: Vec<FunctionCallFromLLM> = Vec::new();
                calls.push(copy_call(&call));
                proof {
                    assert(calls_of(calls@) =~= seq![call@]);
                }
                emit(actions, RealtimeAction::Broadcast(Frame::FunctionCallsStarted(calls)));
                emit(actions, RealtimeAction::CallFunction(call));
            },
            None => {
                proof {
                    assert(self@.pending =~= pre.pending);
                }
            },
        }
        proof {
            assert(realtime_actions_of(actions@) =~= before + pre.arguments_done(
                call_id@,
                arguments@,
            ).1);
        }
    }

    fn take_response(
        &mut self,
        response: &Response,
        model: &Option<String>,
        now: u64,
        actions: &mut Vec<RealtimeAction>,
    )
        requires
            old(self).wf(),
        ensures
            final(self).wf(),
            ({
                let (s, more) = old(self)@.response_done(response@, text_opt(*model), now);
                &&& final(self)@ == s
                &&& realtime_actions_of(final(actions)@) == realtime_actions_of(old(actions)@)
                    + more
            }),
    {
        let ghost pre = self@;
        let ghost before = realtime_actions_of(actions@);
        let ghost all = response_metrics(
            response@.usage,
            text_opt(*model),
            pre.processing_start,
            now,
        );
        let mut metrics: Vec<MetricsData> = Vec::new();
        if let Some(usage) = &response.usage {
            let cached: Option<u32> = match &usage.input_token_details {
                Some(d) => d.cached_tokens,
                None => None,
            };
            metrics.push(
                MetricsOf::LlmUsage {
                    processor: "OpenAIRealtimeService".to_owned(),
                    model: clone_text_opt(model),
                    value: LlmTokenUsage {
                        prompt_tokens: usage.input_tokens,
                        completion_tokens: usage.output_tokens,
                        total_tokens: usage.total_tokens,
                        cache_read_input_tokens: cached,
                        cache_creation_input_tokens: None,
                        reasoning_tokens: None,
                    },
                },
            );
        }
        if let Some(start) = self.processing_start {
            let nanos: u64 = if now >= start {
                now - start
            } else {
                0
            };
            metrics.push(
                MetricsOf::Processing {
                    processor: "OpenAIRealtimeService".to_owned(),
                    model: clone_text_opt(model),
                    nanos,
                },
            );
        }
        self.processing_start = None;
        proof {
            assert(metrics_of(metrics@) =~= all);
            assert(metrics@.len() == all.len());
        }
        if metrics.len() > 0 {
            emit(actions, RealtimeAction::SendDownstream(Frame::Metrics(metrics)));
        }
        emit(
            actions,
            RealtimeAction::SendDownstream(Frame::LLMFullResponseEnd { skip_tts: None }),
        );
        proof {
            assert(realtime_actions_of(actions@) =~= before + pre.response_done(
                response@,
                text_opt(*model),
                now,
            ).1);
        }
    }

    /// Takes a server event.
    pub fn take_event(
        &mut self,
        settings: &OpenAIRealtimeSettings,
        event: ServerEvent,
        now: u64,
        now_ms: u64,
    ) -> (r: Vec<RealtimeAction>)
        requires
            old(self).wf(),
        ensures
            final(self).wf(),
            (final(self)@, realtime_actions_of(r@)) == old(self)@.event_taken(
                settings@,
                event@,
                now,
                now_ms,
            ),
    {
        let ghost pre = self@;
        let ghost said = event@;
        let mut actions: Vec<RealtimeAction> = Vec::new();
        proof {
            assert(realtime_actions_of(actions@) =~= Seq::empty());
        }
        match event {
            ServerEvent::SessionCreated => {
                let props = build_session_properties(settings);
                emit(&mut actions, RealtimeAction::Send(ClientEvent::SessionUpdate(props)));
            },
            ServerEvent::SessionUpdated => {
                self.api_session_ready = true;
                if self.run_llm_when_api_session_ready {
                    self.run_llm_when_api_session_ready = false;
                    emit(&mut actions, RealtimeAction::Send(ClientEvent::ResponseCreate(None)));
                }
            },
            ServerEvent::ResponseAudioDelta { item_id, content_index, delta } => {
                if let Some(data) = decode_base64(delta.as_str()) {
                    self.take_audio(item_id, content_index, data, now_ms, &mut actions);
                }
            },
            ServerEvent::ResponseAudioDone { .. } => {
                // The audio is tracked until the bot has stopped speaking.
                emit(
                    &mut actions,
                    RealtimeAction::SendDownstream(Frame::TTSStopped { context_id: None }),
                );
            },
            ServerEvent::ResponseTextDelta { delta } => {
                emit_model_text(&mut actions, delta);
            },
            ServerEvent::ResponseAudioTranscriptDelta { delta } => {
                emit_model_text(&mut actions, delta.clone());
                emit(
                    &mut actions,
                    RealtimeAction::SendDownstream(
                        Frame::TTSText(
                            AggregatedTextFrameOf {
                                text: delta,
                                aggregated_by: "realtime".to_owned(),
                                context_id: None,
                                skip_tts: None,
                                includes_inter_frame_spaces: false,
                                append_to_context: false,
                            },
                        ),
                    ),
                );
            },
            ServerEvent::SpeechStarted { .. } => {
                self.take_speech_started(now_ms, &mut actions);
            },
            ServerEvent::SpeechStopped { .. } => {
                emit(&mut actions, RealtimeAction::Broadcast(Frame::UserStoppedSpeaking));
            },
            ServerEvent::TranscriptionCompleted { transcript } => {
                emit(
                    &mut actions,
                    RealtimeAction::SendUpstream(
                        Frame::Transcription(
                            TranscriptionOf {
                                text: transcript,
                                user_id: String::new(),
                                timestamp: None,
                                language: None,
                                finalized: true,
                                result: None,
                            },
                        ),
                    ),
                );
            },
            ServerEvent::TranscriptionDelta { delta } => {
                emit(
                    &mut actions,
                    RealtimeAction::SendUpstream(
                        Frame::InterimTranscription(
                            InterimTranscriptionOf {
                                text: delta,
                                user_id: String::new(),
                                timestamp: None,
                                language: None,
                                result: None,
                            },
                        ),
                    ),
                );
            },
            ServerEvent::ConversationItemAdded { item } => {
                self.take_item(item, &mut actions);
            },
            ServerEvent::FunctionCallArgumentsDone { call_id, arguments } => {
                self.take_arguments(call_id.as_str(), arguments.as_str(), &mut actions);
            },
            ServerEvent::ResponseDone { response } => {
                self.take_response(&response, &settings.base.model, now, &mut actions);
            },
            ServerEvent::Error { error } => {
                let code: &str = match &error.code {
                    Some(code) => code.as_str(),
                    None => "",
                };
                proof {
                    reveal_strlit("");
                    reveal_strlit("response_cancel_not_active");
                    reveal_strlit("conversation_already_has_active_response");
                    assert(""@ =~= Seq::<char>::empty());
                }
                if !text_eq(code, "response_cancel_not_active") && !text_eq(
                    code,
                    "conversation_already_has_active_response",
                ) {
                    let report = "OpenAI Realtime error: ".to_owned().concat(
                        error.message.as_str(),
                    ).concat(" (").concat(code).concat(")");
                    assert(report@ == error_report(error@));
                    emit(&mut actions, RealtimeAction::PushError(report));
                    emit(&mut actions, RealtimeAction::Stop);
                }
            },
            ServerEvent::Unknown { .. } => {},
        }
        proof {
            assert(realtime_actions_of(actions@) =~= pre.event_taken(
                settings@,
                said,
                now,
                now_ms,
            ).1);
        }
        actions
    }

    /// Takes a message of the connection.
    pub fn receive(
        &mut self,
        settings: &OpenAIRealtimeSettings,
        message: ServerMessage,
        now: u64,
        now_ms: u64,
    ) -> (r: Vec<RealtimeAction>)
        requires
            old(self).wf(),
        ensures
            final(self).wf(),
            match message {
                ServerMessage::Text(text) => match parsed_json(text@) {
                    Some(data) => exists|event: ServerEventView|
                        #[trigger] describes(data, event) && (
                            final(self)@,
                            realtime_actions_of(r@),
                        ) == old(self)@.event_taken(settings@, event, now, now_ms),
                    None => final(self)@ == old(self)@ && r@.len() == 0,
                },
                ServerMessage::Closed => final(self)@ == old(self)@ && realtime_actions_of(r@)
                    == seq![RealtimeActionView::Stop],
                ServerMessage::Failed(e) => final(self)@ == old(self)@ && realtime_actions_of(r@)
                    == seq![
                    RealtimeActionView::PushError("OpenAI Realtime connection error: "@ + e@),
                    RealtimeActionView::Stop,
                ],
                ServerMessage::Other => final(self)@ == old(self)@ && r@.len() == 0,
            },
    {
        let mut actions: Vec<RealtimeAction> = Vec::new();
        match message {
            ServerMessage::Text(text) => {
                match parse_value(text.as_str()) {
                    Some(data) => {
                        let event = parse_server_event(&data);
                        assert(describes(json_of(data), event@));
                        self.take_event(settings, event, now, now_ms)
                    },
                    None => actions,
                }
            },
            ServerMessage::Closed => {
                emit(&mut actions, RealtimeAction::Stop);
                proof {
                    assert(realtime_actions_of(actions@) =~= seq![RealtimeActionView::Stop]);
                }
                actions
            },
            ServerMessage::Failed(e) => {
                let report = "OpenAI Realtime connection error: ".to_owned().concat(e.as_str());
                emit(&mut actions, RealtimeAction::PushError(report));
                emit(&mut actions, RealtimeAction::Stop);
                proof {
                    assert(realtime_actions_of(actions@) =~= seq![
                        RealtimeActionView::PushError("OpenAI Realtime connection error: "@ + e@),
                        RealtimeActionView::Stop,
                    ]);
                }
                actions
            },
            ServerMessage::Other => actions,
        }
    }

    /// The function of a call was looked up. `registered` says whether
    /// interruptions cancel it, where it is registered.
    pub fn function_begun(&self, call: &FunctionCallFromLLM, registered: Option<bool>) -> (r: Vec<
        RealtimeAction,
    >)
        ensures
            realtime_actions_of(r@) == self@.function_found(call@, registered),
    {
        let mut actions: Vec<RealtimeAction> = Vec::new();
        emit(&mut actions, RealtimeAction::Broadcast(call_in_progress(call, registered)));
        let context = ContextParts::from_context_opt(&self.context);
        emit(&mut actions, RealtimeAction::RunFunction { call: copy_call(call), context });
        proof {
            assert(realtime_actions_of(actions@) =~= self@.function_found(call@, registered));
        }
        actions
    }

    /// A function call has been carried out.
    pub fn function_finished(&mut self, call: &FunctionCallFromLLM, outcome: CallOutcome) -> (r:
        Vec<RealtimeAction>)
        requires
            old(self).wf(),
        ensures
            final(self).wf(),
            exists|id: Seq<char>|
                #[trigger] is_item_id(id) && (final(self)@, realtime_actions_of(r@)) == old(
                    self,
                )@.function_done(call@, result_of(call@.function_name, outcome), id),
    {
        let ghost pre = self@;
        let id = make_item_id();
        let ghost name = id@;
        let result = call_result(call.function_name.as_str(), outcome);
        let ghost document = json_of(result);
        let mut actions: Vec<RealtimeAction> = Vec::new();
        emit(
            &mut actions,
            RealtimeAction::Broadcast(call_completed(call, result.clone())),
        );
        let item = result_item(id, call.tool_call_id.as_str(), &result);
        emit(&mut actions, RealtimeAction::Send(ClientEvent::ItemCreate(item)));
        self.completed_tool_calls.insert(call.tool_call_id.clone());
        emit(&mut actions, RealtimeAction::Send(ClientEvent::ResponseCreate(None)));
        proof {
            assert(is_item_id(name));
            assert(realtime_actions_of(actions@) =~= pre.function_done(
                call@,
                document,
                name,
            ).1);
        }
        actions
    }
}

/// Sends a text of the model downstream.
fn emit_model_text(actions: &mut Vec<RealtimeAction>, text: String)
    ensures
        realtime_actions_of(final(actions)@) == realtime_actions_of(old(actions)@).push(
            RealtimeActionView::SendDownstream(model_text(text@)),
        ),
{
    emit(
        actions,
        RealtimeAction::SendDownstream(
            Frame::LLMText(
                TextOf {
                    text,
                    skip_tts: None,
                    includes_inter_frame_spaces: false,
                    append_to_context: false,
                },
            ),
        ),
    );
}

/// A response that was wanted before the session was ready is asked for once:
/// the first `session.updated` asks, a second one does not.
pub proof fn lemma_waiting_response_is_asked_for_once(
    s: SharedModel,
    settings: OpenAIRealtimeSettingsView,
    now: u64,
    now_ms: u64,
)
    requires
        s.run_when_ready,
    ensures
        ({
            let updated = ServerEventView::SessionUpdated;
            let (first, asked) = s.event_taken(settings, updated, now, now_ms);
            let (second, again) = first.event_taken(settings, updated, now, now_ms);
            &&& asked == seq![RealtimeActionView::Send(ClientEventView::ResponseCreate(None))]
            &&& again == silence()
            &&& first.ready
            &&& second == first
        }),
{
}

/// An audio response starts once: only its first audio announces it, and all of
/// it is counted, as far as a count can go.
pub proof fn lemma_audio_response_starts_once(
    s: SharedModel,
    item_id: Seq<char>,
    index: u32,
    first: Seq<u8>,
    second: Seq<u8>,
    t1: u64,
    t2: u64,
)
    requires
        s.audio is None,
        first.len() + second.len() <= usize::MAX,
    ensures
        ({
            let (a, announced) = s.audio_arrived(item_id, index, first, t1);
            let (b, quiet) = a.audio_arrived(item_id, index, second, t2);
            &&& announced.len() == 2
            &&& announced[0] == RealtimeActionView::SendDownstream(
                FrameView::TTSStarted { context_id: None },
            )
            &&& quiet.len() == 1
            &&& b.audio == Some(
                AudioResponseView {
                    item_id,
                    content_index: index,
                    start_time_ms: t1,
                    total_size: (first.len() + second.len()) as usize,
                },
            )
        }),
{
}

/// A function call is carried out once: when its arguments are reported again,
/// nothing happens.
pub proof fn lemma_function_call_runs_once(
    s: SharedModel,
    call_id: Seq<char>,
    arguments: Seq<char>,
    again: Seq<char>,
)
    ensures
        s.arguments_done(call_id, arguments).0.arguments_done(call_id, again).1 == silence(),
{
}

/// An item that this side created begins no response when the server reports
/// it; the report is waited for once.
pub proof fn lemma_own_items_begin_no_response(s: SharedModel, item: ConversationItemView)
    requires
        s.manual.contains(item.id),
    ensures
        s.item_added(item).1 == silence(),
        !s.item_added(item).0.manual.contains(item.id),
{
}

} // verus!
