//! The processing of frames by the OpenAI Realtime service.
use serde_json::Value;
use vstd::prelude::*;
use vstd::string::*;

use crate::frames::{
    clone_text_opt, Direction, Frame, FrameEnvelope, FrameView, ImageOf, ImageRawFrame,
};
use crate::json::{
    json_of, json_opt, json_seq, value_as_array, value_as_str, value_get, value_null, Json,
};
use crate::payload::bytes_as_slice;
use crate::services::openai::media::{
    base64_len, base64_of, can_encode, encodable, encode_base64, encode_jpeg, is_encodable,
    jpeg_of,
};
use crate::services::openai::realtime::{
    context_properties, emit, extract_host, has_audio, host_of, image_item, merged_properties,
    message_item, message_to_item, only_if, output_item, realtime_actions_of, response_properties,
    result_item, turn_detection_disabled, turn_detection_off, video_item, ClientEvent,
    ClientEventView, RealtimeAction, RealtimeActionView, RealtimeCommit, RealtimeCommitView,
    DEFAULT_BASE_URL, DEFAULT_MODEL,
};
use crate::services::openai::realtime_events::{is_item_id, make_item_id};
use crate::services::openai::realtime_state::{SharedModel, SharedRealtimeState};
use crate::services::openai::settings::{
    OpenAIRealtimeSettings, OpenAIRealtimeSettingsView, SessionProperties, SessionPropertiesView,
};
use crate::services::service_base::{ServiceBase, ServiceBaseView};
use crate::services::settings::{change_at, Settings};
use crate::services::stt::lists;
use crate::transport::audio_output::since;

verus! {

/// The time between two video frames that are sent: one second.
pub const VIDEO_PERIOD: u64 = 1_000_000_000;

/// The state of an [`OpenAIRealtimeService`].
pub struct RealtimeModel {
    pub base: ServiceBaseView,
    pub api_key: Seq<char>,
    pub base_url: Seq<char>,
    pub settings: OpenAIRealtimeSettingsView,
    /// Whether there is a connection.
    pub connected: bool,
    pub context: Option<Json>,
    /// Whether the conversation still has to be set up.
    pub needs_setup: bool,
    pub video_paused: bool,
    pub video_detail: Seq<char>,
    pub last_video: Option<u64>,
    /// Whether audio input is paused to begin with.
    pub starts_paused: bool,
}

/// Whether all texts of a list are item ids.
pub open spec fn all_item_ids(ids: Seq<Seq<char>>) -> bool {
    forall|i: int| 0 <= i < ids.len() ==> is_item_id(#[trigger] ids[i])
}

/// The messages of a context.
pub open spec fn messages_of(context: Option<Json>) -> Seq<Json> {
    match context {
        Some(c) => match c.elements_at("messages"@) {
            Some(list) => list,
            None => Seq::empty(),
        },
        None => Seq::empty(),
    }
}

/// What became of the tool results in messages.
pub struct ResultsModel {
    /// The tool calls whose results have been taken care of.
    pub completed: Set<Seq<char>>,
    pub actions: Seq<RealtimeActionView>,
    /// Whether a result was sent.
    pub sent: bool,
}

impl RealtimeModel {
    /// An event is sent, where there is a connection.
    pub open spec fn sent(self, event: ClientEventView) -> Seq<RealtimeActionView> {
        only_if(self.connected, RealtimeActionView::Send(event))
    }

    /// The session is told of its properties.
    pub open spec fn session_told(self) -> Seq<RealtimeActionView> {
        self.sent(
            ClientEventView::SessionUpdate(context_properties(self.settings, self.context)),
        )
    }

    /// The address to connect to.
    pub open spec fn url(self) -> Seq<char> {
        self.base_url + "?model="@ + match self.settings.base.model {
            Some(model) => model,
            None => DEFAULT_MODEL@,
        }
    }

    /// The items of a conversation are created, with the ids at hand.
    pub open spec fn items_created(self, messages: Seq<Json>, ids: Seq<Seq<char>>) -> Seq<
        RealtimeActionView,
    >
        decreases messages.len(),
    {
        if messages.len() == 0 {
            Seq::empty()
        } else {
            let i = messages.len() - 1;
            self.items_created(messages.drop_last(), ids) + seq![
                RealtimeActionView::Commit(RealtimeCommitView::MarkManual(ids[i])),
            ] + self.sent(ClientEventView::ItemCreate(message_item(messages[i], ids[i])))
        }
    }

    /// The conversation is set up.
    pub open spec fn set_up(self, ids: Seq<Seq<char>>) -> Seq<RealtimeActionView> {
        self.items_created(messages_of(self.context), ids) + self.session_told() + seq![
            RealtimeActionView::Commit(RealtimeCommitView::FinishSetup),
        ]
    }

    /// A response is asked for, in a session that is ready.
    pub open spec fn response_asked(self, ids: Seq<Seq<char>>) -> Seq<RealtimeActionView> {
        (if self.needs_setup {
            self.set_up(ids)
        } else {
            Seq::empty()
        }) + seq![
            RealtimeActionView::SendDownstream(FrameView::LLMFullResponseStart { skip_tts: None }),
        ] + (if self.base.metrics_enabled {
            seq![
                RealtimeActionView::StartProcessing,
                RealtimeActionView::StartTtfb,
                RealtimeActionView::Commit(RealtimeCommitView::StartMetrics),
            ]
        } else {
            Seq::empty()
        }) + self.sent(
            ClientEventView::ResponseCreate(
                Some(response_properties(self.settings.session_properties)),
            ),
        )
    }

    /// A response is wanted: it is asked for at once if the session is ready,
    /// or else once it is.
    pub open spec fn response_wanted(self, shared: SharedModel, ids: Seq<Seq<char>>) -> (
        SharedModel,
        Seq<RealtimeActionView>,
    ) {
        if shared.ready {
            (shared, self.response_asked(ids))
        } else {
            (SharedModel { run_when_ready: true, ..shared }, Seq::empty())
        }
    }

    /// The tool results in messages are taken care of. New ones are sent, if so
    /// wanted, with the ids at hand.
    pub open spec fn results_handled(
        self,
        completed: Set<Seq<char>>,
        messages: Seq<Json>,
        ids: Seq<Seq<char>>,
        send_new: bool,
    ) -> ResultsModel
        decreases messages.len(),
    {
        if messages.len() == 0 {
            ResultsModel { completed, actions: Seq::empty(), sent: false }
        } else {
            let i = messages.len() - 1;
            let front = self.results_handled(completed, messages.drop_last(), ids, send_new);
            match messages[i].text_at("tool_call_id"@) {
                Some(call_id) => if front.completed.contains(call_id) {
                    front
                } else {
                    let content = match messages[i].get("content"@) {
                        Some(c) => c,
                        None => Json::Null,
                    };
                    ResultsModel {
                        completed: front.completed.insert(call_id),
                        actions: front.actions + (if send_new {
                            self.sent(
                                ClientEventView::ItemCreate(
                                    output_item(ids[i], call_id, content),
                                ),
                            )
                        } else {
                            Seq::empty()
                        }) + seq![
                            RealtimeActionView::Commit(
                                RealtimeCommitView::MarkCompleted(call_id),
                            ),
                        ],
                        sent: front.sent || send_new,
                    }
                },
                None => front,
            }
        }
    }

    /// A context arrives. With the first one a response is wanted, and its tool
    /// results are old; later ones bring new results, and a response is wanted
    /// if there are any.
    pub open spec fn context_arrived(
        self,
        shared: SharedModel,
        context: Json,
        result_ids: Seq<Seq<char>>,
        item_ids: Seq<Seq<char>>,
    ) -> (RealtimeModel, SharedModel, Seq<RealtimeActionView>) {
        let first = self.context is None;
        let m = RealtimeModel { context: Some(context), ..self };
        let shared = SharedModel { context: Some(context), ..shared };
        let results = m.results_handled(
            shared.completed,
            messages_of(m.context),
            result_ids,
            !first,
        );
        if first || results.sent {
            let (shared, asked) = m.response_wanted(shared, item_ids);
            (m, shared, results.actions + asked)
        } else {
            (m, shared, results.actions)
        }
    }

    /// The user interrupts: audio that was not heard is cut off.
    pub open spec fn interrupted(self, shared: SharedModel, now_ms: u64) -> (
        SharedModel,
        Seq<RealtimeActionView>,
    ) {
        let props = self.settings.session_properties;
        (
            SharedModel { audio: None, ..shared },
            (if turn_detection_off(props) {
                self.sent(ClientEventView::AudioClear) + self.sent(ClientEventView::ResponseCancel)
            } else {
                Seq::empty()
            }) + (match shared.audio {
                Some(audio) => self.sent(
                    ClientEventView::ItemTruncate {
                        item_id: audio.item_id,
                        content_index: audio.content_index,
                        audio_end_ms: audio.heard_ms(now_ms) as u64,
                    },
                ),
                None => Seq::empty(),
            }) + seq![
                RealtimeActionView::ResetMetrics,
                RealtimeActionView::SendDownstream(
                    FrameView::LLMFullResponseEnd { skip_tts: None },
                ),
            ] + only_if(
                has_audio(props),
                RealtimeActionView::SendDownstream(FrameView::TTSStopped { context_id: None }),
            ),
        )
    }

    /// The connection is given up.
    pub open spec fn disconnected(self, shared: SharedModel) -> (
        RealtimeModel,
        SharedModel,
        Seq<RealtimeActionView>,
    ) {
        (
            RealtimeModel { connected: false, ..self },
            SharedModel {
                ready: false,
                completed: Set::empty(),
                pending: Map::empty(),
                audio: None,
                ..shared
            },
            seq![RealtimeActionView::ResetMetrics] + only_if(
                self.connected,
                RealtimeActionView::Disconnect,
            ),
        )
    }

    /// Whether a video frame is left out, because one was sent shortly before.
    pub open spec fn video_skipped(self, now: u64) -> bool {
        self.last_video is Some && since(now, self.last_video->0) < VIDEO_PERIOD
    }

    /// A video frame arrives.
    pub open spec fn video_arrived(
        self,
        image: ImageOf<Seq<char>, Seq<u8>>,
        now: u64,
        id: Seq<char>,
    ) -> (RealtimeModel, Result<Seq<RealtimeActionView>, Seq<char>>) {
        if self.video_skipped(now) {
            (self, Ok(Seq::empty()))
        } else {
            (
                RealtimeModel { last_video: Some(now), ..self },
                match jpeg_of(image) {
                    Ok(jpeg) => if base64_len(jpeg.len()) <= isize::MAX {
                        Ok(
                            self.sent(
                                ClientEventView::ItemCreate(
                                    image_item(id, jpeg, self.video_detail),
                                ),
                            ),
                        )
                    } else {
                        Err("JPEG data too large"@)
                    },
                    Err(e) => Err(e),
                },
            )
        }
    }

    /// The settings change. A new model is the one that measurements are
    /// reported for; new session properties are told to the session.
    pub open spec fn settings_changed(self, delta: Map<Seq<char>, Json>) -> (
        RealtimeModel,
        Seq<RealtimeActionView>,
    ) {
        let base_settings = self.settings.base.applied(delta);
        let m = RealtimeModel {
            settings: OpenAIRealtimeSettingsView { base: base_settings, ..self.settings },
            base: if self.settings.base.changes(delta).contains("model"@) && base_settings.model
                is Some {
                ServiceBaseView { model: base_settings.model, ..self.base }
            } else {
                self.base
            },
            ..self
        };
        let props = match change_at(delta, "session_properties"@) {
            Some(j) => SessionPropertiesView::read(j),
            None => None,
        };
        match props {
            Some(p) => {
                let m = RealtimeModel {
                    settings: OpenAIRealtimeSettingsView { session_properties: p, ..m.settings },
                    ..m
                };
                (m, m.session_told())
            },
            None => (m, Seq::empty()),
        }
    }

    /// The service after a frame, and what the frame calls for, before the
    /// measurement of the time to the first byte.
    pub open spec fn handled(
        self,
        shared: SharedModel,
        frame: FrameView,
        direction: Direction,
        now: u64,
        now_ms: u64,
        result_ids: Seq<Seq<char>>,
        item_ids: Seq<Seq<char>>,
    ) -> (RealtimeModel, SharedModel, Result<Seq<RealtimeActionView>, Seq<char>>) {
        let forward = seq![RealtimeActionView::Forward(direction)];
        match frame {
            FrameView::Start(f) => (
                RealtimeModel { base: self.base.started(f), ..self },
                shared,
                Ok(forward.push(RealtimeActionView::Connect { url: self.url() })),
            ),
            FrameView::End | FrameView::Cancel => {
                let (m, shared, actions) = self.disconnected(shared);
                (m, shared, Ok(actions + forward))
            },
            FrameView::InputAudioRaw(f) => (
                self,
                shared,
                Ok(
                    if shared.audio_paused {
                        Seq::empty()
                    } else {
                        self.sent(ClientEventView::AudioAppend(base64_of(f.audio)))
                    },
                ),
            ),
            FrameView::InputImageRaw(image) => if self.video_paused {
                (self, shared, Ok(Seq::empty()))
            } else {
                let (m, r) = self.video_arrived(image, now, item_ids[0]);
                (m, shared, r)
            },
            FrameView::LLMContext(context) => {
                let (m, shared, actions) = self.context_arrived(
                    shared,
                    context,
                    result_ids,
                    item_ids,
                );
                (m, shared, Ok(actions + forward))
            },
            FrameView::Interruption => {
                let (shared, actions) = self.interrupted(shared, now_ms);
                (self, shared, Ok(actions + forward))
            },
            FrameView::UserStoppedSpeaking => (
                self,
                shared,
                Ok(
                    (if turn_detection_off(self.settings.session_properties) {
                        self.sent(ClientEventView::AudioCommit)
                    } else {
                        Seq::empty()
                    }) + forward,
                ),
            ),
            FrameView::BotStoppedSpeaking => (
                self,
                SharedModel { audio: None, ..shared },
                Ok(forward),
            ),
            FrameView::LLMUpdateSettings(delta) => {
                let (m, actions) = self.settings_changed(delta);
                (m, shared, Ok(actions + forward))
            },
            FrameView::LLMSetTools(_) => (self, shared, Ok(self.session_told() + forward)),
            _ => (self, shared, Ok(forward)),
        }
    }

    /// Whether a frame makes the service ask for a response at once. Its
    /// measurement then starts anew.
    pub open spec fn asks_now(
        self,
        shared: SharedModel,
        frame: FrameView,
        result_ids: Seq<Seq<char>>,
    ) -> bool {
        match frame {
            FrameView::LLMContext(context) => {
                let first = self.context is None;
                let m = RealtimeModel { context: Some(context), ..self };
                let results = m.results_handled(
                    shared.completed,
                    messages_of(m.context),
                    result_ids,
                    !first,
                );
                shared.ready && (first || results.sent)
            },
            _ => false,
        }
    }

    /// The service after a frame, and what the frame calls for. Once the first
    /// audio of a response has come, the time to the first byte is reported.
    pub open spec fn processed(
        self,
        shared: SharedModel,
        frame: FrameView,
        direction: Direction,
        now: u64,
        now_ms: u64,
        result_ids: Seq<Seq<char>>,
        item_ids: Seq<Seq<char>>,
    ) -> (RealtimeModel, SharedModel, Result<Seq<RealtimeActionView>, Seq<char>>) {
        let (m, after, r) = self.handled(
            shared,
            frame,
            direction,
            now,
            now_ms,
            result_ids,
            item_ids,
        );
        (
            m,
            after,
            match r {
                Ok(actions) => Ok(
                    actions + only_if(
                        after.ttfb_reported && m.base.metrics_enabled && !self.asks_now(
                            shared,
                            frame,
                            result_ids,
                        ),
                        RealtimeActionView::PushTtfb,
                    ),
                ),
                Err(e) => Err(e),
            },
        )
    }

    /// The state after a change that takes effect.
    pub open spec fn committed(self, shared: SharedModel, c: RealtimeCommitView, now: u64) -> (
        RealtimeModel,
        SharedModel,
    ) {
        match c {
            RealtimeCommitView::MarkManual(id) => (
                self,
                SharedModel { manual: shared.manual.insert(id), ..shared },
            ),
            RealtimeCommitView::FinishSetup => (
                RealtimeModel { needs_setup: false, ..self },
                shared,
            ),
            RealtimeCommitView::StartMetrics => (
                self,
                SharedModel { ttfb_reported: false, processing_start: Some(now), ..shared },
            ),
            RealtimeCommitView::MarkCompleted(id) => (
                self,
                SharedModel { completed: shared.completed.insert(id), ..shared },
            ),
        }
    }
}

/// OpenAI Realtime service.
///
/// One bidirectional connection takes the place of speech recognition, language
/// model and speech synthesis. Consumes input audio, emits synthesized audio.
#[derive(Debug)]
pub struct OpenAIRealtimeService {
    base: ServiceBase,
    api_key: String,
    base_url: String,
    settings: OpenAIRealtimeSettings,
    connected: bool,
    context: Option<Value>,
    llm_needs_conversation_setup: bool,
    video_input_paused: bool,
    video_frame_detail: String,
    last_video_sent: Option<u64>,
    audio_starts_paused: bool,
}

impl View for OpenAIRealtimeService {
    type V = RealtimeModel;

    closed spec fn view(&self) -> RealtimeModel {
        RealtimeModel {
            base: self.base@,
            api_key: self.api_key@,
            base_url: self.base_url@,
            settings: self.settings@,
            connected: self.connected,
            context: json_opt(self.context),
            needs_setup: self.llm_needs_conversation_setup,
            video_paused: self.video_input_paused,
            video_detail: self.video_frame_detail@,
            last_video: self.last_video_sent,
            starts_paused: self.audio_starts_paused,
        }
    }
}

proof fn lemma_concat(a: Seq<RealtimeActionView>, b: Seq<RealtimeActionView>, c: Seq<
    RealtimeActionView,
>)
    ensures
        a + (b + c) == (a + b) + c,
{
    assert(a + (b + c) =~= (a + b) + c);
}

impl OpenAIRealtimeService {
    pub fn new(api_key: String, settings: OpenAIRealtimeSettings) -> (r: Self)
        ensures
            r@ == (RealtimeModel {
                base: ServiceBaseView::fresh("OpenAIRealtimeService"@, settings@.base.model),
                api_key: api_key@,
                base_url: DEFAULT_BASE_URL@,
                settings: settings@,
                connected: false,
                context: None,
                needs_setup: true,
                video_paused: false,
                video_detail: "auto"@,
                last_video: None,
                starts_paused: false,
            }),
    {
        let model = clone_text_opt(&settings.base.model);
        OpenAIRealtimeService {
            base: ServiceBase::new("OpenAIRealtimeService".to_owned(), model),
            api_key,
            base_url: DEFAULT_BASE_URL.to_owned(),
            settings,
            connected: false,
            context: None,
            llm_needs_conversation_setup: true,
            video_input_paused: false,
            video_frame_detail: "auto".to_owned(),
            last_video_sent: None,
            audio_starts_paused: false,
        }
    }

    /// Set a custom base URL.
    pub fn with_base_url(self, url: String) -> (r: Self)
        ensures
            r@ == (RealtimeModel { base_url: url@, ..self@ }),
    {
        let mut s = self;
        s.base_url = url;
        s
    }

    /// Start with audio input paused.
    pub fn with_audio_paused(self, paused: bool) -> (r: Self)
        ensures
            r@ == (RealtimeModel { starts_paused: paused, ..self@ }),
    {
        let mut s = self;
        s.audio_starts_paused = paused;
        s
    }

    /// The state to be shared with the receiving of events.
    pub fn new_shared_state(&self) -> (r: SharedRealtimeState)
        ensures
            r.wf(),
            r@ == SharedModel::fresh(self@.starts_paused),
    {
        SharedRealtimeState::new(self.audio_starts_paused)
    }

    /// Start with video input paused.
    pub fn with_video_paused(self, paused: bool) -> (r: Self)
        ensures
            r@ == (RealtimeModel { video_paused: paused, ..self@ }),
    {
        let mut s = self;
        s.video_input_paused = paused;
        s
    }

    /// Set the detail level for video frames.
    /// Valid values: "auto", "low", "high".
    pub fn with_video_frame_detail(self, detail: String) -> (r: Self)
        ensures
            r@ == (RealtimeModel { video_detail: detail@, ..self@ }),
    {
        let mut s = self;
        s.video_frame_detail = detail;
        s
    }

    /// What the service has in common with others.
    pub fn base(&self) -> (r: &ServiceBase)
        ensures
            r@ == self@.base,
    {
        &self.base
    }

    /// The settings.
    pub fn settings(&self) -> (r: &OpenAIRealtimeSettings)
        ensures
            r@ == self@.settings,
    {
        &self.settings
    }

    /// When the last video frame was sent.
    pub fn last_video_sent(&self) -> (r: Option<u64>)
        ensures
            r == self@.last_video,
    {
        self.last_video_sent
    }

    /// The value of the authorization header.
    pub fn authorization(&self) -> (r: String)
        ensures
            r@ == "Bearer "@ + self@.api_key,
    {
        "Bearer ".to_owned().concat(self.api_key.as_str())
    }

    /// The address to connect to.
    pub fn connect_url(&self) -> (r: String)
        ensures
            r@ == self@.url(),
    {
        let model: &str = match &self.settings.base.model {
            Some(model) => model.as_str(),
            None => DEFAULT_MODEL,
        };
        self.base_url.clone().concat("?model=").concat(model)
    }

    /// The host to connect to.
    pub fn connect_host(&self) -> (r: String)
        ensures
            r@ == match host_of(self@.url()) {
                Some(host) => host,
                None => "api.openai.com"@,
            },
    {
        match extract_host(self.connect_url().as_str()) {
            Some(host) => host,
            None => "api.openai.com".to_owned(),
        }
    }

    /// A connection was made.
    pub fn connected(&mut self)
        ensures
            final(self)@ == (RealtimeModel { connected: true, ..old(self)@ }),
    {
        self.connected = true;
    }

    /// Sends an event, where there is a connection.
    fn send(&self, event: ClientEvent, actions: &mut Vec<RealtimeAction>)
        ensures
            realtime_actions_of(final(actions)@) == realtime_actions_of(old(actions)@)
                + self@.sent(event@),
    {
        let ghost said = event@;
        if self.connected {
            emit(actions, RealtimeAction::Send(event));
        }
        proof {
            assert(realtime_actions_of(actions@) =~= realtime_actions_of(old(actions)@)
                + self@.sent(said));
        }
    }

    /// Tells the session of its properties.
    fn send_session_update(&self, actions: &mut Vec<RealtimeAction>)
        ensures
            realtime_actions_of(final(actions)@) == realtime_actions_of(old(actions)@)
                + self@.session_told(),
    {
        let props = merged_properties(&self.settings, &self.context);
        self.send(ClientEvent::SessionUpdate(props), actions);
    }

    /// Creates the items of the conversation.
    fn create_items(&self, actions: &mut Vec<RealtimeAction>) -> (ids: Ghost<Seq<Seq<char>>>)
        ensures
            all_item_ids(ids@),
            realtime_actions_of(final(actions)@) == realtime_actions_of(old(actions)@)
                + self@.items_created(messages_of(self@.context), ids@),
    {
        let ghost mut ids = Seq::<Seq<char>>::empty();
        let ghost before = realtime_actions_of(actions@);
        proof {
            assert(before + Seq::<RealtimeActionView>::empty() =~= before);
        }
        let context: &Value = match &self.context {
            Some(c) => c,
            None => return Ghost(ids),
        };
        let messages: &Vec<Value> = match value_get(context, "messages") {
            Some(m) => match value_as_array(m) {
                Some(list) => list,
                None => return Ghost(ids),
            },
            None => return Ghost(ids),
        };
        let ghost all = json_seq(messages@);
        let ghost m = self@;
        assert(messages_of(m.context) == all);
        proof {
            assert(all.take(0) =~= Seq::empty());
        }
        let mut i: usize = 0;
        while i < messages.len()
            invariant
                i <= messages@.len(),
                all == json_seq(messages@),
                m == self@,
                ids.len() == i,
                all_item_ids(ids),
                realtime_actions_of(actions@) == before + m.items_created(
                    all.take(i as int),
                    ids,
                ),
            decreases messages@.len() - i,
        {
            let ghost earlier = m.items_created(all.take(i as int), ids);
            let id = make_item_id();
            let ghost name = id@;
            let item = message_to_item(&messages[i], id.clone());
            emit(actions, RealtimeAction::Commit(RealtimeCommit::MarkManual(id)));
            self.send(ClientEvent::ItemCreate(item), actions);
            proof {
                let more = ids.push(name);
                lemma_items_by_prefix(m, all.take(i as int), ids, more);
                let longer = all.take(i + 1);
                assert(longer.drop_last() =~= all.take(i as int));
                assert(longer.last() == json_of(messages@[i as int]));
                let mark = seq![
                    RealtimeActionView::Commit(RealtimeCommitView::MarkManual(name)),
                ];
                let create = m.sent(
                    ClientEventView::ItemCreate(message_item(all[i as int], name)),
                );
                assert(realtime_actions_of(actions@) =~= before + (earlier + mark + create));
                ids = more;
            }
            i = i + 1;
        }
        proof {
            assert(all.take(all.len() as int) =~= all);
        }
        Ghost(ids)
    }

    /// Asks for a response at once if the session is ready, or else once it is.
    fn create_response(
        &self,
        shared: &mut SharedRealtimeState,
        actions: &mut Vec<RealtimeAction>,
    ) -> (ids: Ghost<Seq<Seq<char>>>)
        requires
            old(shared).wf(),
        ensures
            final(shared).wf(),
            all_item_ids(ids@),
            ({
                let (s, asked) = self@.response_wanted(old(shared)@, ids@);
                &&& final(shared)@ == s
                &&& realtime_actions_of(final(actions)@) == realtime_actions_of(old(actions)@)
                    + asked
            }),
    {
        let ghost m = self@;
        let ghost before = realtime_actions_of(actions@);
        let ghost mut ids = Seq::<Seq<char>>::empty();
        if !shared.api_session_ready {
            shared.run_llm_when_api_session_ready = true;
            proof {
                assert(before + Seq::<RealtimeActionView>::empty() =~= before);
            }
            return Ghost(ids);
        }
        if self.llm_needs_conversation_setup {
            let Ghost(made) = self.create_items(actions);
            self.send_session_update(actions);
            emit(actions, RealtimeAction::Commit(RealtimeCommit::FinishSetup));
            proof {
                ids = made;
                assert(realtime_actions_of(actions@) =~= before + m.set_up(ids));
            }
        }
        let ghost setup = if m.needs_setup {
            m.set_up(ids)
        } else {
            Seq::empty()
        };
        proof {
            assert(realtime_actions_of(actions@) =~= before + setup);
        }
        emit(
            actions,
            RealtimeAction::SendDownstream(Frame::LLMFullResponseStart { skip_tts: None }),
        );
        if self.base.metrics_enabled() {
            emit(actions, RealtimeAction::StartProcessing);
            emit(actions, RealtimeAction::StartTtfb);
            emit(actions, RealtimeAction::Commit(RealtimeCommit::StartMetrics));
        }
        let props = crate::services::openai::realtime::make_response_properties(
            &self.settings.session_properties,
        );
        self.send(ClientEvent::ResponseCreate(Some(props)), actions);
        proof {
            assert(realtime_actions_of(actions@) =~= before + m.response_asked(ids));
        }
        Ghost(ids)
    }

    /// Takes care of the tool results in the context.
    fn process_completed_function_calls(
        &self,
        shared: &SharedRealtimeState,
        send_new_results: bool,
        actions: &mut Vec<RealtimeAction>,
    ) -> (r: (bool, Ghost<Seq<Seq<char>>>))
        ensures
            all_item_ids(r.1@),
            ({
                let results = self@.results_handled(
                    shared@.completed,
                    messages_of(self@.context),
                    r.1@,
                    send_new_results,
                );
                &&& r.0 == results.sent
                &&& realtime_actions_of(final(actions)@) == realtime_actions_of(old(actions)@)
                    + results.actions
            }),
    {
        let ghost mut ids = Seq::<Seq<char>>::empty();
        let ghost before = realtime_actions_of(actions@);
        let ghost m = self@;
        proof {
            assert(before + Seq::<RealtimeActionView>::empty() =~= before);
        }
        let context: &Value = match &self.context {
            Some(c) => c,
            None => return (false, Ghost(ids)),
        };
        let messages: &Vec<Value> = match value_get(context, "messages") {
            Some(list) => match value_as_array(list) {
                Some(list) => list,
                None => return (false, Ghost(ids)),
            },
            None => return (false, Ghost(ids)),
        };
        let ghost all = json_seq(messages@);
        assert(messages_of(m.context) == all);
        proof {
            assert(all.take(0) =~= Seq::empty());
        }
        // Calls whose results were found in these messages.
        let mut found = crate::collections::TextSet::new();
        let mut sent_new = false;
        let mut i: usize = 0;
        proof {
            assert(shared@.completed.union(found@) =~= shared@.completed);
        }
        while i < messages.len()
            invariant
                i <= messages@.len(),
                all == json_seq(messages@),
                m == self@,
                ids.len() == i,
                all_item_ids(ids),
                ({
                    let results = m.results_handled(
                        shared@.completed,
                        all.take(i as int),
                        ids,
                        send_new_results,
                    );
                    &&& sent_new == results.sent
                    &&& shared@.completed.union(found@) == results.completed
                    &&& realtime_actions_of(actions@) == before + results.actions
                }),
            decreases messages@.len() - i,
        {
            let ghost front = m.results_handled(
                shared@.completed,
                all.take(i as int),
                ids,
                send_new_results,
            );
            let id = make_item_id();
            let ghost name = id@;
            let ghost more = ids.push(name);
            proof {
                lemma_results_by_prefix(
                    m,
                    shared@.completed,
                    all.take(i as int),
                    ids,
                    more,
                    send_new_results,
                );
                let longer = all.take(i + 1);
                assert(longer.drop_last() =~= all.take(i as int));
                assert(longer.last() == json_of(messages@[i as int]));
            }
            let message: &Value = &messages[i];
            let call_id: Option<&str> = match value_get(message, "tool_call_id") {
                Some(v) => value_as_str(v),
                None => None,
            };
            if let Some(call_id) = call_id {
                if !shared.completed_tool_calls.contains(call_id) && !found.contains(call_id) {
                    if send_new_results {
                        let content = match value_get(message, "content") {
                            Some(c) => c.clone(),
                            None => value_null(),
                        };
                        let item = result_item(id, call_id, &content);
                        self.send(ClientEvent::ItemCreate(item), actions);
                        sent_new = true;
                    }
                    let ghost middle = realtime_actions_of(actions@);
                    let ghost held = found@;
                    emit(
                        actions,
                        RealtimeAction::Commit(
                            RealtimeCommit::MarkCompleted(call_id.to_owned()),
                        ),
                    );
                    found.insert(call_id.to_owned());
                    proof {
                        assert(shared@.completed.union(found@) =~= shared@.completed.union(
                            held,
                        ).insert(call_id@));
                        let results = m.results_handled(
                            shared@.completed,
                            all.take(i + 1),
                            more,
                            send_new_results,
                        );
                        assert(realtime_actions_of(actions@) =~= before + results.actions);
                    }
                }
            }
            proof {
                ids = more;
            }
            i = i + 1;
        }
        proof {
            assert(all.take(all.len() as int) =~= all);
        }
        (sent_new, Ghost(ids))
    }

    /// A context arrives.
    fn handle_context(
        &mut self,
        shared: &mut SharedRealtimeState,
        context: &Value,
        actions: &mut Vec<RealtimeAction>,
    ) -> (r: (Ghost<Seq<Seq<char>>>, Ghost<Seq<Seq<char>>>, bool))
        requires
            old(shared).wf(),
        ensures
            r.2 == old(self)@.asks_now(
                old(shared)@,
                FrameView::LLMContext(json_of(*context)),
                r.0@,
            ),
            final(shared).wf(),
            all_item_ids(r.0@),
            all_item_ids(r.1@),
            ({
                let (m, s, more) = old(self)@.context_arrived(
                    old(shared)@,
                    json_of(*context),
                    r.0@,
                    r.1@,
                );
                &&& final(self)@ == m
                &&& final(shared)@ == s
                &&& realtime_actions_of(final(actions)@) == realtime_actions_of(old(actions)@)
                    + more
            }),
    {
        let ghost before = realtime_actions_of(actions@);
        let first_context = self.context.is_none();
        self.context = Some(context.clone());
        shared.context = Some(context.clone());
        let (sent_new, Ghost(result_ids)) = self.process_completed_function_calls(
            shared,
            !first_context,
            actions,
        );
        let ghost results = self@.results_handled(
            shared@.completed,
            messages_of(self@.context),
            result_ids,
            !first_context,
        );
        let ghost mut item_ids = Seq::<Seq<char>>::empty();
        let asks_now = shared.api_session_ready && (first_context || sent_new);
        if first_context || sent_new {
            let ghost ready = shared@;
            let Ghost(made) = self.create_response(shared, actions);
            proof {
                item_ids = made;
                let asked = self@.response_wanted(ready, made).1;
                lemma_concat(before, results.actions, asked);
            }
        }
        (Ghost(result_ids), Ghost(item_ids), asks_now)
    }

    /// The user interrupts.
    fn handle_interruption(
        &self,
        shared: &mut SharedRealtimeState,
        now_ms: u64,
        actions: &mut Vec<RealtimeAction>,
    )
        requires
            old(shared).wf(),
        ensures
            final(shared).wf(),
            ({
                let (s, more) = self@.interrupted(old(shared)@, now_ms);
                &&& final(shared)@ == s
                &&& realtime_actions_of(final(actions)@) == realtime_actions_of(old(actions)@)
                    + more
            }),
    {
        let ghost pre = shared@;
        let ghost before = realtime_actions_of(actions@);
        if turn_detection_disabled(&self.settings.session_properties) {
            self.send(ClientEvent::AudioClear, actions);
            self.send(ClientEvent::ResponseCancel, actions);
        }
        self.truncate_current_audio_response(shared, now_ms, actions);
        emit(actions, RealtimeAction::ResetMetrics);
        emit(
            actions,
            RealtimeAction::SendDownstream(Frame::LLMFullResponseEnd { skip_tts: None }),
        );
        if crate::services::openai::realtime::has_audio_modality(
            &self.settings.session_properties,
        ) {
            emit(actions, RealtimeAction::SendDownstream(Frame::TTSStopped { context_id: None }));
        }
        proof {
            assert(realtime_actions_of(actions@) =~= before + self@.interrupted(pre, now_ms).1);
        }
    }

    /// Cuts off audio that was not heard.
    fn truncate_current_audio_response(
        &self,
        shared: &mut SharedRealtimeState,
        now_ms: u64,
        actions: &mut Vec<RealtimeAction>,
    )
        requires
            old(shared).wf(),
        ensures
            final(shared).wf(),
            final(shared)@ == (SharedModel { audio: None, ..old(shared)@ }),
            realtime_actions_of(final(actions)@) == realtime_actions_of(old(actions)@) + (
            match old(shared)@.audio {
                Some(audio) => self@.sent(
                    ClientEventView::ItemTruncate {
                        item_id: audio.item_id,
                        content_index: audio.content_index,
                        audio_end_ms: audio.heard_ms(now_ms) as u64,
                    },
                ),
                None => Seq::empty(),
            }),
    {
        let mut current = None;
        std::mem::swap(&mut shared.current_audio_response, &mut current);
        match current {
            Some(current) => {
                let audio_end_ms: u64 = current.truncate_ms(now_ms);
                self.send(
                    ClientEvent::ItemTruncate {
                        item_id: current.item_id,
                        content_index: current.content_index,
                        audio_end_ms,
                    },
                    actions,
                );
            },
            None => {
                proof {
                    assert(realtime_actions_of(actions@) =~= realtime_actions_of(actions@)
                        + Seq::empty());
                }
            },
        }
    }

    /// A video frame arrives: it is sent as an item, at most once a second.
    fn send_user_video(
        &mut self,
        frame: &ImageRawFrame,
        now: u64,
        actions: &mut Vec<RealtimeAction>,
    ) -> (r: (Result<(), String>, Ghost<Seq<char>>))
        requires
            old(self)@.video_skipped(now) || encodable(frame@),
        ensures
            is_item_id(r.1@),
            ({
                let (m, outcome) = old(self)@.video_arrived(frame@, now, r.1@);
                &&& final(self)@ == m
                &&& match (outcome, r.0) {
                    (Ok(more), Ok(_)) => realtime_actions_of(final(actions)@)
                        == realtime_actions_of(old(actions)@) + more,
                    (Err(e), Err(text)) => text@ == e,
                    _ => false,
                }
            }),
    {
        let id = make_item_id();
        let ghost name = id@;
        let skipped = match self.last_video_sent {
            Some(last) => {
                let elapsed: u64 = if now >= last {
                    now - last
                } else {
                    0
                };
                elapsed < VIDEO_PERIOD
            },
            None => false,
        };
        if skipped {
            proof {
                assert(realtime_actions_of(actions@) =~= realtime_actions_of(actions@)
                    + Seq::empty());
            }
            return (Ok(()), Ghost(name));
        }
        self.last_video_sent = Some(now);
        match encode_jpeg(frame) {
            Ok(jpeg) => {
                if !can_encode(jpeg.as_slice()) {
                    return (Err("JPEG data too large".to_owned()), Ghost(name));
                }
                let item = video_item(id, &jpeg, &self.video_frame_detail);
                self.send(ClientEvent::ItemCreate(item), actions);
                (Ok(()), Ghost(name))
            },
            Err(e) => (Err(e), Ghost(name)),
        }
    }

    /// The settings change.
    fn update_settings(&mut self, delta: &Settings, actions: &mut Vec<RealtimeAction>)
        ensures
            ({
                let (m, more) = old(self)@.settings_changed(delta@);
                &&& final(self)@ == m
                &&& realtime_actions_of(final(actions)@) == realtime_actions_of(old(actions)@)
                    + more
            }),
    {
        proof {
            assert(realtime_actions_of(actions@) + Seq::empty() =~= realtime_actions_of(actions@));
        }
        let changed = self.settings.base.apply_delta(delta);
        if lists(&changed, "model") {
            if let Some(model) = &self.settings.base.model {
                self.base.set_model(model.clone());
            }
        }
        if let Some(v) = delta.get("session_properties") {
            if let Some(props) = SessionProperties::from_value(v) {
                self.settings.session_properties = props;
                self.send_session_update(actions);
            }
        }
    }

    /// Gives the connection up.
    fn disconnect(&mut self, shared: &mut SharedRealtimeState, actions: &mut Vec<RealtimeAction>)
        requires
            old(shared).wf(),
        ensures
            final(shared).wf(),
            ({
                let (m, s, more) = old(self)@.disconnected(old(shared)@);
                &&& final(self)@ == m
                &&& final(shared)@ == s
                &&& realtime_actions_of(final(actions)@) == realtime_actions_of(old(actions)@)
                    + more
            }),
    {
        shared.api_session_ready = false;
        emit(actions, RealtimeAction::ResetMetrics);
        if self.connected {
            emit(actions, RealtimeAction::Disconnect);
        }
        self.connected = false;
        shared.completed_tool_calls.clear();
        shared.pending_function_calls.clear();
        shared.current_audio_response = None;
        proof {
            assert(realtime_actions_of(actions@) =~= realtime_actions_of(old(actions)@) + old(
                self,
            )@.disconnected(old(shared)@).2);
        }
    }

    /// Whether the service can process a frame: audio that is to be sent must
    /// fit in a text, and an image that is to be sent must be one that the
    /// encoder takes.
    pub fn can_process(
        &self,
        shared: &SharedRealtimeState,
        envelope: &FrameEnvelope,
        now: u64,
    ) -> (r: bool)
        ensures
            r == match envelope@.frame {
                FrameView::InputAudioRaw(f) => shared@.audio_paused || base64_len(f.audio.len())
                    <= isize::MAX,
                FrameView::InputImageRaw(image) => self@.video_paused || self@.video_skipped(now)
                    || encodable(image),
                _ => true,
            },
    {
        match &envelope.frame {
            Frame::InputAudioRaw(f) => shared.audio_input_paused || can_encode(
                bytes_as_slice(&f.audio),
            ),
            Frame::InputImageRaw(image) => {
                let skipped = match self.last_video_sent {
                    Some(last) => now < last || now - last < VIDEO_PERIOD,
                    None => false,
                };
                self.video_input_paused || skipped || is_encodable(image)
            },
            _ => true,
        }
    }

    /// Processes a frame. The first item id is the one of an image.
    pub fn process_frame(
        &mut self,
        shared: &mut SharedRealtimeState,
        envelope: &FrameEnvelope,
        direction: Direction,
        now: u64,
        now_ms: u64,
    ) -> (r: Result<Vec<RealtimeAction>, String>)
        requires
            old(shared).wf(),
            envelope@.frame matches FrameView::InputAudioRaw(f) ==> old(shared)@.audio_paused
                || base64_len(f.audio.len()) <= isize::MAX,
            envelope@.frame matches FrameView::InputImageRaw(image) ==> old(self)@.video_paused
                || old(self)@.video_skipped(now) || encodable(image),
        ensures
            final(shared).wf(),
            exists|result_ids: Seq<Seq<char>>, item_ids: Seq<Seq<char>>|
                #![trigger all_item_ids(result_ids), all_item_ids(item_ids)]
                {
                    &&& all_item_ids(result_ids)
                    &&& all_item_ids(item_ids)
                    &&& (final(self)@, final(shared)@, realtime_result(r)) == old(self)@.processed(
                        old(shared)@,
                        envelope@.frame,
                        direction,
                        now,
                        now_ms,
                        result_ids,
                        item_ids,
                    )
                },
    {
        let ghost pre = self@;
        let ghost before = shared@;
        let ghost frame = envelope@.frame;
        let ghost mut result_ids = Seq::<Seq<char>>::empty();
        let ghost mut item_ids = Seq::<Seq<char>>::empty();
        let mut asks_now = false;
        let mut actions: Vec<RealtimeAction> = Vec::new();
        proof {
            assert(realtime_actions_of(actions@) =~= Seq::empty());
        }
        match &envelope.frame {
            Frame::Start(f) => {
                let url = self.connect_url();
                self.base.handle_start_frame(f);
                emit(&mut actions, RealtimeAction::Forward(direction));
                emit(&mut actions, RealtimeAction::Connect { url });
            },
            Frame::End | Frame::Cancel => {
                self.disconnect(shared, &mut actions);
                emit(&mut actions, RealtimeAction::Forward(direction));
            },
            Frame::InputAudioRaw(f) => {
                if !shared.audio_input_paused {
                    let audio = encode_base64(bytes_as_slice(&f.audio));
                    self.send(ClientEvent::AudioAppend(audio), &mut actions);
                }
            },
            Frame::InputImageRaw(image) => {
                if !self.video_input_paused {
                    let (sent, Ghost(id)) = self.send_user_video(image, now, &mut actions);
                    proof {
                        item_ids = seq![id];
                        assert(all_item_ids(item_ids));
                    }
                    if let Err(e) = sent {
                        assert(all_item_ids(result_ids));
                        return Err(e);
                    }
                }
            },
            Frame::LLMContext(context) => {
                let (Ghost(results), Ghost(items), asked) = self.handle_context(
                    shared,
                    context,
                    &mut actions,
                );
                asks_now = asked;
                proof {
                    result_ids = results;
                    item_ids = items;
                }
                emit(&mut actions, RealtimeAction::Forward(direction));
            },
            Frame::Interruption => {
                self.handle_interruption(shared, now_ms, &mut actions);
                emit(&mut actions, RealtimeAction::Forward(direction));
            },
            Frame::UserStoppedSpeaking => {
                if turn_detection_disabled(&self.settings.session_properties) {
                    self.send(ClientEvent::AudioCommit, &mut actions);
                }
                emit(&mut actions, RealtimeAction::Forward(direction));
            },
            Frame::BotStoppedSpeaking => {
                shared.current_audio_response = None;
                emit(&mut actions, RealtimeAction::Forward(direction));
            },
            Frame::LLMUpdateSettings(delta) => {
                self.update_settings(delta, &mut actions);
                emit(&mut actions, RealtimeAction::Forward(direction));
            },
            Frame::LLMSetTools(_) => {
                self.send_session_update(&mut actions);
                emit(&mut actions, RealtimeAction::Forward(direction));
            },
            _ => {
                emit(&mut actions, RealtimeAction::Forward(direction));
            },
        }
        let ghost done = pre.handled(
            before,
            frame,
            direction,
            now,
            now_ms,
            result_ids,
            item_ids,
        );
        assert(done.2 is Ok && realtime_actions_of(actions@) =~= done.2->Ok_0);
        assert(done.0 == self@ && done.1 == shared@);
        if shared.ttfb_reported && self.base.metrics_enabled() && !asks_now {
            emit(&mut actions, RealtimeAction::PushTtfb);
        }
        proof {
            assert(all_item_ids(result_ids) && all_item_ids(item_ids));
            let whole = pre.processed(
                before,
                frame,
                direction,
                now,
                now_ms,
                result_ids,
                item_ids,
            );
            assert(realtime_actions_of(actions@) =~= whole.2->Ok_0);
        }
        Ok(actions)
    }

    /// A change of state takes effect.
    pub fn commit(&mut self, shared: &mut SharedRealtimeState, c: RealtimeCommit, now: u64)
        requires
            old(shared).wf(),
        ensures
            final(shared).wf(),
            (final(self)@, final(shared)@) == old(self)@.committed(old(shared)@, c@, now),
    {
        match c {
            RealtimeCommit::MarkManual(id) => {
                shared.messages_added_manually.insert(id);
            },
            RealtimeCommit::FinishSetup => {
                self.llm_needs_conversation_setup = false;
            },
            RealtimeCommit::StartMetrics => {
                shared.ttfb_reported = false;
                shared.processing_start = Some(now);
            },
            RealtimeCommit::MarkCompleted(id) => {
                shared.completed_tool_calls.insert(id);
            },
        }
    }
}

/// What a result of processing a frame says.
pub open spec fn realtime_result(r: Result<Vec<RealtimeAction>, String>) -> Result<
    Seq<RealtimeActionView>,
    Seq<char>,
> {
    match r {
        Ok(actions) => Ok(realtime_actions_of(actions@)),
        Err(e) => Err(e@),
    }
}

proof fn lemma_items_by_prefix(
    m: RealtimeModel,
    messages: Seq<Json>,
    ids: Seq<Seq<char>>,
    more: Seq<Seq<char>>,
)
    requires
        messages.len() <= ids.len() <= more.len(),
        ids =~= more.take(ids.len() as int),
    ensures
        m.items_created(messages, ids) == m.items_created(messages, more),
    decreases messages.len(),
{
    if messages.len() > 0 {
        lemma_items_by_prefix(m, messages.drop_last(), ids, more);
        assert(ids[messages.len() - 1] == more[messages.len() - 1]);
    }
}

proof fn lemma_results_by_prefix(
    m: RealtimeModel,
    completed: Set<Seq<char>>,
    messages: Seq<Json>,
    ids: Seq<Seq<char>>,
    more: Seq<Seq<char>>,
    send_new: bool,
)
    requires
        messages.len() <= ids.len() <= more.len(),
        ids =~= more.take(ids.len() as int),
    ensures
        m.results_handled(completed, messages, ids, send_new) == m.results_handled(
            completed,
            messages,
            more,
            send_new,
        ),
    decreases messages.len(),
{
    if messages.len() > 0 {
        lemma_results_by_prefix(m, completed, messages.drop_last(), ids, more, send_new);
        assert(ids[messages.len() - 1] == more[messages.len() - 1]);
    }
}

/// The tool calls of messages whose results have been taken care of.
pub open spec fn calls_in(messages: Seq<Json>) -> Set<Seq<char>> {
    Set::new(
        |id: Seq<char>|
            exists|i: int|
                0 <= i < messages.len() && (#[trigger] messages[i]).text_at("tool_call_id"@)
                    == Some(id),
    )
}

proof fn lemma_results_complete_all(
    m: RealtimeModel,
    completed: Set<Seq<char>>,
    messages: Seq<Json>,
    ids: Seq<Seq<char>>,
    send_new: bool,
)
    ensures
        m.results_handled(completed, messages, ids, send_new).completed == completed.union(
            calls_in(messages),
        ),
    decreases messages.len(),
{
    let results = m.results_handled(completed, messages, ids, send_new);
    if messages.len() == 0 {
        assert(results.completed =~= completed.union(calls_in(messages)));
    } else {
        let front = messages.drop_last();
        lemma_results_complete_all(m, completed, front, ids, send_new);
        let i = messages.len() - 1;
        assert forall|id: Seq<char>| #[trigger] calls_in(messages).contains(id) <==> (calls_in(
            front,
        ).contains(id) || messages[i].text_at("tool_call_id"@) == Some(id)) by {
            if calls_in(front).contains(id) {
                let j = choose|j: int|
                    0 <= j < front.len() && (#[trigger] front[j]).text_at("tool_call_id"@) == Some(
                        id,
                    );
                assert(messages[j].text_at("tool_call_id"@) == Some(id));
            }
            if calls_in(messages).contains(id) {
                let j = choose|j: int|
                    0 <= j < messages.len() && (#[trigger] messages[j]).text_at("tool_call_id"@)
                        == Some(id);
                if j < i {
                    assert(front[j].text_at("tool_call_id"@) == Some(id));
                }
            }
        }
        assert(results.completed =~= completed.union(calls_in(messages)));
    }
}

/// A tool result is sent at most once: where all calls of the messages have been
/// taken care of, nothing is sent and nothing changes.
pub proof fn lemma_results_are_not_sent_again(
    m: RealtimeModel,
    completed: Set<Seq<char>>,
    messages: Seq<Json>,
    ids: Seq<Seq<char>>,
    send_new: bool,
)
    requires
        calls_in(messages).subset_of(completed),
    ensures
        m.results_handled(completed, messages, ids, send_new) == (ResultsModel {
            completed,
            actions: Seq::empty(),
            sent: false,
        }),
    decreases messages.len(),
{
    if messages.len() > 0 {
        let front = messages.drop_last();
        assert forall|id: Seq<char>| calls_in(front).contains(id) implies completed.contains(
            id,
        ) by {
            let j = choose|j: int|
                0 <= j < front.len() && (#[trigger] front[j]).text_at("tool_call_id"@) == Some(id);
            assert(messages[j].text_at("tool_call_id"@) == Some(id));
            assert(calls_in(messages).contains(id));
        }
        lemma_results_are_not_sent_again(m, completed, front, ids, send_new);
        let i = messages.len() - 1;
        if let Some(id) = messages[i].text_at("tool_call_id"@) {
            assert(messages[i].text_at("tool_call_id"@) == Some(id));
            assert(calls_in(messages).contains(id));
        }
    }
}

/// Once the results in the messages were taken care of, the same messages bring
/// nothing new.
pub proof fn lemma_same_context_brings_no_results(
    m: RealtimeModel,
    completed: Set<Seq<char>>,
    messages: Seq<Json>,
    ids: Seq<Seq<char>>,
    more_ids: Seq<Seq<char>>,
    send_new: bool,
)
    ensures
        ({
            let after = m.results_handled(completed, messages, ids, send_new).completed;
            let again = m.results_handled(after, messages, more_ids, true);
            again.actions == Seq::<RealtimeActionView>::empty() && !again.sent
                && again.completed == after
        }),
{
    lemma_results_complete_all(m, completed, messages, ids, send_new);
    lemma_results_are_not_sent_again(
        m,
        completed.union(calls_in(messages)),
        messages,
        more_ids,
        true,
    );
}

/// Without a connection nothing is sent, whatever frame comes.
pub proof fn lemma_nothing_sent_without_connection(m: RealtimeModel, event: ClientEventView)
    requires
        !m.connected,
    ensures
        m.sent(event) == Seq::<RealtimeActionView>::empty(),
{
}

/// After an interruption no audio is left to be cut off: a second one sends no
/// further truncation.
pub proof fn lemma_interruption_truncates_once(m: RealtimeModel, shared: SharedModel, now_ms: u64)
    ensures
        m.interrupted(shared, now_ms).0.audio is None,
        ({
            let again = m.interrupted(m.interrupted(shared, now_ms).0, now_ms).1;
            forall|i: int|
                0 <= i < again.len() ==> !((#[trigger] again[i]) matches RealtimeActionView::Send(
                    e,
                ) && e is ItemTruncate)
        }),
{
}

} // verus!
