//! The OpenAI Realtime service.
//!
//! Replaces the cascade of speech recognition, language model and speech
//! synthesis. Input audio is consumed (not forwarded); synthesized audio comes
//! from the events that the server sends.
use serde_json::Value;
use vstd::prelude::*;
use vstd::string::*;

use crate::frames::{
    clone_text_opt, text_opt, Direction, Frame, FrameView, FunctionCallFromLLM, FunctionCallOf,
};
use crate::json::{
    json_of, json_opt, json_seq, json_text, value_as_array, value_as_str, value_get, value_to_text,
    Json,
};
use crate::services::openai::llm::{context_tools, ContextParts, ContextPartsView};
use crate::services::openai::media::{base64_len, data_uri, data_uri_of};
use crate::services::openai::realtime_events::{
    event_json, is_event_id, is_item_id, make_item_id, parts_of, ConversationItem,
    ConversationItemCreateEvent, ConversationItemTruncateEvent, ConversationItemView,
    InputAudioBufferAppendEvent, InputAudioBufferClearEvent, InputAudioBufferCommitEvent,
    ItemContent, ItemContentView, ResponseCancelEvent, ResponseCreateEvent, SessionUpdateEvent,
};
use crate::services::openai::settings::{
    OpenAIRealtimeSettings, OpenAIRealtimeSettingsView, ResponseProperties, ResponsePropertiesView,
    SessionProperties, SessionPropertiesView,
};
use crate::services::openai::wire::{copy_texts, texts_in};
use crate::services::settings::names_in;
use crate::services::stt::lists;
use crate::text::{chars_of, find_char, first_at, strip_prefix, text_eq, text_from};

verus! {

// ---------------------------------------------------------------------------
// Client events
// ---------------------------------------------------------------------------

/// An event for the server, before it is given its id.
#[derive(Debug)]
pub enum ClientEvent {
    SessionUpdate(SessionProperties),
    AudioAppend(String),
    AudioCommit,
    AudioClear,
    ResponseCreate(Option<ResponseProperties>),
    ResponseCancel,
    ItemCreate(ConversationItem),
    ItemTruncate { item_id: String, content_index: u32, audio_end_ms: u64 },
}

/// What a [`ClientEvent`] says.
pub enum ClientEventView {
    SessionUpdate(SessionPropertiesView),
    AudioAppend(Seq<char>),
    AudioCommit,
    AudioClear,
    ResponseCreate(Option<ResponsePropertiesView>),
    ResponseCancel,
    ItemCreate(ConversationItemView),
    ItemTruncate { item_id: Seq<char>, content_index: u32, audio_end_ms: u64 },
}

impl View for ClientEvent {
    type V = ClientEventView;

    open spec fn view(&self) -> ClientEventView {
        match *self {
            ClientEvent::SessionUpdate(p) => ClientEventView::SessionUpdate(p@),
            ClientEvent::AudioAppend(a) => ClientEventView::AudioAppend(a@),
            ClientEvent::AudioCommit => ClientEventView::AudioCommit,
            ClientEvent::AudioClear => ClientEventView::AudioClear,
            ClientEvent::ResponseCreate(p) => ClientEventView::ResponseCreate(
                match p {
                    Some(x) => Some(x@),
                    None => None,
                },
            ),
            ClientEvent::ResponseCancel => ClientEventView::ResponseCancel,
            ClientEvent::ItemCreate(i) => ClientEventView::ItemCreate(i@),
            ClientEvent::ItemTruncate { item_id, content_index, audio_end_ms } => {
                ClientEventView::ItemTruncate { item_id: item_id@, content_index, audio_end_ms }
            },
        }
    }
}

impl ClientEventView {
    /// The document of the event, with its id.
    pub open spec fn json(self, id: Seq<char>) -> Json {
        match self {
            ClientEventView::SessionUpdate(p) => event_json("session.update"@, id).with(
                "session"@,
                p.json(),
            ),
            ClientEventView::AudioAppend(a) => event_json("input_audio_buffer.append"@, id).with(
                "audio"@,
                Json::Text(a),
            ),
            ClientEventView::AudioCommit => event_json("input_audio_buffer.commit"@, id),
            ClientEventView::AudioClear => event_json("input_audio_buffer.clear"@, id),
            ClientEventView::ResponseCreate(p) => event_json("response.create"@, id).with_some(
                "response"@,
                match p {
                    Some(x) => Some(x.json()),
                    None => None,
                },
            ),
            ClientEventView::ResponseCancel => event_json("response.cancel"@, id),
            ClientEventView::ItemCreate(i) => event_json("conversation.item.create"@, id).with(
                "item"@,
                i.json(),
            ),
            ClientEventView::ItemTruncate { item_id, content_index, audio_end_ms } => event_json(
                "conversation.item.truncate"@,
                id,
            ).with("item_id"@, Json::Text(item_id)).with(
                "content_index"@,
                Json::Number(crate::json::JsonNumber::Unsigned(content_index as u64)),
            ).with(
                "audio_end_ms"@,
                Json::Number(crate::json::JsonNumber::Unsigned(audio_end_ms)),
            ),
        }
    }
}

impl ClientEvent {
    /// Gives the event an id and writes it as a document.
    pub fn into_value(self) -> (r: Value)
        ensures
            exists|id: Seq<char>| #[trigger] is_event_id(id) && json_of(r) == self@.json(id),
    {
        let ghost said = self@;
        match self {
            ClientEvent::SessionUpdate(p) => {
                let e = SessionUpdateEvent::new(p);
                assert(is_event_id(e.event_id@) && e.json() == said.json(e.event_id@));
                e.to_value()
            },
            ClientEvent::AudioAppend(a) => {
                let e = InputAudioBufferAppendEvent::new(a);
                assert(is_event_id(e.event_id@) && e.json() == said.json(e.event_id@));
                e.to_value()
            },
            ClientEvent::AudioCommit => {
                let e = InputAudioBufferCommitEvent::new();
                assert(is_event_id(e.event_id@) && e.json() == said.json(e.event_id@));
                e.to_value()
            },
            ClientEvent::AudioClear => {
                let e = InputAudioBufferClearEvent::new();
                assert(is_event_id(e.event_id@) && e.json() == said.json(e.event_id@));
                e.to_value()
            },
            ClientEvent::ResponseCreate(p) => {
                let e = ResponseCreateEvent::new(p);
                assert(is_event_id(e.event_id@) && e.json() == said.json(e.event_id@));
                e.to_value()
            },
            ClientEvent::ResponseCancel => {
                let e = ResponseCancelEvent::new();
                assert(is_event_id(e.event_id@) && e.json() == said.json(e.event_id@));
                e.to_value()
            },
            ClientEvent::ItemCreate(i) => {
                let e = ConversationItemCreateEvent::new(i);
                assert(is_event_id(e.event_id@) && e.json() == said.json(e.event_id@));
                e.to_value()
            },
            ClientEvent::ItemTruncate { item_id, content_index, audio_end_ms } => {
                let e = ConversationItemTruncateEvent::new(item_id, content_index, audio_end_ms);
                assert(is_event_id(e.event_id@) && e.json() == said.json(e.event_id@));
                e.to_value()
            },
        }
    }

    /// Gives the event an id and writes it as the text that is sent.
    pub fn into_text(self) -> (r: String)
        ensures
            exists|id: Seq<char>|
                #[trigger] is_event_id(id) && r@ == json_text(self@.json(id)),
    {
        let v = self.into_value();
        value_to_text(&v)
    }
}

// ---------------------------------------------------------------------------
// Actions
// ---------------------------------------------------------------------------

/// A change of state that takes effect once what comes before it has succeeded.
#[derive(Debug)]
pub enum RealtimeCommit {
    /// The item with this id was created by this side.
    MarkManual(String),
    /// The conversation is set up.
    FinishSetup,
    /// Measurement of a response has started.
    StartMetrics,
    /// The result of the tool call with this id has been taken care of.
    MarkCompleted(String),
}

/// What a [`RealtimeCommit`] says.
pub enum RealtimeCommitView {
    MarkManual(Seq<char>),
    FinishSetup,
    StartMetrics,
    MarkCompleted(Seq<char>),
}

impl View for RealtimeCommit {
    type V = RealtimeCommitView;

    open spec fn view(&self) -> RealtimeCommitView {
        match *self {
            RealtimeCommit::MarkManual(id) => RealtimeCommitView::MarkManual(id@),
            RealtimeCommit::FinishSetup => RealtimeCommitView::FinishSetup,
            RealtimeCommit::StartMetrics => RealtimeCommitView::StartMetrics,
            RealtimeCommit::MarkCompleted(id) => RealtimeCommitView::MarkCompleted(id@),
        }
    }
}

/// What the service asks the program to do.
///
/// In the processing of a frame the actions are performed in their order, and
/// if one fails, the rest is dropped. In the receiving of server events
/// failures are passed over.
#[derive(Debug)]
pub enum RealtimeAction {
    /// Push the frame at hand in the given direction.
    Forward(Direction),
    /// Connect to the server, and receive its events.
    Connect { url: String },
    /// Close the connection, and stop to receive.
    Disconnect,
    /// Send an event to the server.
    Send(ClientEvent),
    /// Send a new frame downstream.
    SendDownstream(Frame),
    /// Send a new frame upstream.
    SendUpstream(Frame),
    /// Broadcast a new frame.
    Broadcast(Frame),
    /// Report an error that is not fatal.
    PushError(String),
    /// Stop to measure the time to the first byte, and send the measurement.
    PushTtfb,
    /// Start to measure processing time.
    StartProcessing,
    /// Start to measure the time to the first byte.
    StartTtfb,
    /// Forget measurements that are under way.
    ResetMetrics,
    /// Hand the change of state to `commit`.
    Commit(RealtimeCommit),
    /// Look the function of a call up, then report to `function_begun`.
    CallFunction(FunctionCallFromLLM),
    /// Run the handler of a function, if there is one, then report to
    /// `function_finished`.
    RunFunction { call: FunctionCallFromLLM, context: ContextParts },
    /// Stop to receive.
    Stop,
}

/// What a [`RealtimeAction`] says.
pub enum RealtimeActionView {
    Forward(Direction),
    Connect { url: Seq<char> },
    Disconnect,
    Send(ClientEventView),
    SendDownstream(FrameView),
    SendUpstream(FrameView),
    Broadcast(FrameView),
    PushError(Seq<char>),
    PushTtfb,
    StartProcessing,
    StartTtfb,
    ResetMetrics,
    Commit(RealtimeCommitView),
    CallFunction(FunctionCallOf<Seq<char>, Json>),
    RunFunction { call: FunctionCallOf<Seq<char>, Json>, context: ContextPartsView },
    Stop,
}

impl View for RealtimeAction {
    type V = RealtimeActionView;

    open spec fn view(&self) -> RealtimeActionView {
        match *self {
            RealtimeAction::Forward(d) => RealtimeActionView::Forward(d),
            RealtimeAction::Connect { url } => RealtimeActionView::Connect { url: url@ },
            RealtimeAction::Disconnect => RealtimeActionView::Disconnect,
            RealtimeAction::Send(e) => RealtimeActionView::Send(e@),
            RealtimeAction::SendDownstream(f) => RealtimeActionView::SendDownstream(f@),
            RealtimeAction::SendUpstream(f) => RealtimeActionView::SendUpstream(f@),
            RealtimeAction::Broadcast(f) => RealtimeActionView::Broadcast(f@),
            RealtimeAction::PushError(e) => RealtimeActionView::PushError(e@),
            RealtimeAction::PushTtfb => RealtimeActionView::PushTtfb,
            RealtimeAction::StartProcessing => RealtimeActionView::StartProcessing,
            RealtimeAction::StartTtfb => RealtimeActionView::StartTtfb,
            RealtimeAction::ResetMetrics => RealtimeActionView::ResetMetrics,
            RealtimeAction::Commit(c) => RealtimeActionView::Commit(c@),
            RealtimeAction::CallFunction(c) => RealtimeActionView::CallFunction(c@),
            RealtimeAction::RunFunction { call, context } => RealtimeActionView::RunFunction {
                call: call@,
                context: context@,
            },
            RealtimeAction::Stop => RealtimeActionView::Stop,
        }
    }
}

/// The actions in a list.
pub open spec fn realtime_actions_of(s: Seq<RealtimeAction>) -> Seq<RealtimeActionView> {
    s.map_values(|a: RealtimeAction| a@)
}

/// Adds an action at the end of a list.
pub(crate) fn emit(list: &mut Vec<RealtimeAction>, a: RealtimeAction)
    ensures
        realtime_actions_of(final(list)@) == realtime_actions_of(old(list)@).push(a@),
{
    list.push(a);
    proof {
        assert(realtime_actions_of(list@) =~= realtime_actions_of(old(list)@).push(a@));
    }
}

/// A list with one action, or none.
pub open spec fn only_if(condition: bool, action: RealtimeActionView) -> Seq<RealtimeActionView> {
    if condition {
        seq![action]
    } else {
        Seq::empty()
    }
}

// ---------------------------------------------------------------------------
// Items
// ---------------------------------------------------------------------------

/// The role of a message: `user` where it has none.
pub open spec fn role_of(message: Json) -> Seq<char> {
    match message.text_at("role"@) {
        Some(role) => role,
        None => "user"@,
    }
}

/// The item for a message of the context. Only content that is a text is taken.
pub open spec fn message_item(message: Json, id: Seq<char>) -> ConversationItemView {
    ConversationItemView {
        role: Some(role_of(message)),
        content: match message.text_at("content"@) {
            Some(text) => Some(
                seq![
                    ItemContentView {
                        content_type: if role_of(message) == "user"@ {
                            "input_text"@
                        } else {
                            "text"@
                        },
                        text: Some(text),
                        audio: None,
                        transcript: None,
                        image_url: None,
                        detail: None,
                    },
                ],
            ),
            None => None,
        },
        ..ConversationItemView::bare(id, "message"@)
    }
}

/// Convert a message of the context into an item, with the id at hand.
pub fn message_to_item(message: &Value, id: String) -> (r: ConversationItem)
    ensures
        r@ == message_item(json_of(*message), id@),
{
    let role: String = match value_get(message, "role") {
        Some(r) => match value_as_str(r) {
            Some(s) => s.to_owned(),
            None => "user".to_owned(),
        },
        None => "user".to_owned(),
    };
    let text: Option<&str> = match value_get(message, "content") {
        Some(c) => value_as_str(c),
        None => None,
    };
    let content: Option<Vec<ItemContent>> = match text {
        Some(t) => {
            let content_type = if text_eq(role.as_str(), "user") {
                "input_text".to_owned()
            } else {
                "text".to_owned()
            };
            let mut parts: Vec<ItemContent> = Vec::new();
            parts.push(
                ItemContent {
                    content_type,
                    text: Some(t.to_owned()),
                    audio: None,
                    transcript: None,
                    image_url: None,
                    detail: None,
                },
            );
            proof {
                assert(parts_of(parts@) =~= message_item(json_of(*message), id@).content->0);
            }
            Some(parts)
        },
        None => None,
    };
    ConversationItem {
        id,
        item_type: "message".to_owned(),
        role: Some(role),
        content,
        call_id: None,
        name: None,
        arguments: None,
        output: None,
        status: None,
        object: None,
    }
}

/// Convert a message of the context into an item, with a new id.
pub fn context_message_to_conversation_item(message: &Value) -> (r: ConversationItem)
    ensures
        exists|id: Seq<char>|
            #[trigger] is_item_id(id) && r@ == message_item(json_of(*message), id),
{
    let id = make_item_id();
    assert(is_item_id(id@));
    message_to_item(message, id)
}

/// The text of a result: a text as it is, any other document in JSON.
pub open spec fn output_text(result: Json) -> Seq<char> {
    match result {
        Json::Text(s) => s,
        other => json_text(other),
    }
}

/// The item that brings the result of a function call.
pub open spec fn output_item(id: Seq<char>, call_id: Seq<char>, result: Json) ->
    ConversationItemView {
    ConversationItemView {
        call_id: Some(call_id),
        output: Some(output_text(result)),
        ..ConversationItemView::bare(id, "function_call_output"@)
    }
}

/// Makes the item that brings the result of a function call.
pub fn result_item(id: String, call_id: &str, result: &Value) -> (r: ConversationItem)
    ensures
        r@ == output_item(id@, call_id@, json_of(*result)),
{
    let output = match value_as_str(result) {
        Some(s) => s.to_owned(),
        None => value_to_text(result),
    };
    ConversationItem {
        id,
        item_type: "function_call_output".to_owned(),
        role: None,
        content: None,
        call_id: Some(call_id.to_owned()),
        name: None,
        arguments: None,
        output: Some(output),
        status: None,
        object: None,
    }
}

/// The item that brings an image.
pub open spec fn image_item(id: Seq<char>, jpeg: Seq<u8>, detail: Seq<char>) ->
    ConversationItemView {
    ConversationItemView {
        role: Some("user"@),
        content: Some(
            seq![
                ItemContentView {
                    content_type: "input_image"@,
                    text: None,
                    audio: None,
                    transcript: None,
                    image_url: Some(data_uri_of(jpeg)),
                    detail: Some(detail),
                },
            ],
        ),
        ..ConversationItemView::bare(id, "message"@)
    }
}

/// Makes the item that brings an image.
pub fn video_item(id: String, jpeg: &Vec<u8>, detail: &String) -> (r: ConversationItem)
    requires
        base64_len(jpeg@.len()) <= isize::MAX,
    ensures
        r@ == image_item(id@, jpeg@, detail@),
{
    let mut parts: Vec<ItemContent> = Vec::new();
    parts.push(
        ItemContent {
            content_type: "input_image".to_owned(),
            text: None,
            audio: None,
            transcript: None,
            image_url: Some(data_uri(jpeg)),
            detail: Some(detail.clone()),
        },
    );
    proof {
        assert(parts_of(parts@) =~= image_item(id@, jpeg@, detail@).content->0);
    }
    ConversationItem {
        id,
        item_type: "message".to_owned(),
        role: Some("user".to_owned()),
        content: Some(parts),
        call_id: None,
        name: None,
        arguments: None,
        output: None,
        status: None,
        object: None,
    }
}

// ---------------------------------------------------------------------------
// Session properties
// ---------------------------------------------------------------------------

/// The properties of a session that is opened. The system instruction of the
/// settings stands in where there are no instructions.
pub open spec fn initial_properties(settings: OpenAIRealtimeSettingsView) -> SessionPropertiesView {
    let props = settings.session_properties;
    SessionPropertiesView {
        instructions: if props.instructions is Some {
            props.instructions
        } else {
            settings.base.system_instruction
        },
        ..props
    }
}

/// Build the properties of a session that is opened.
pub fn build_session_properties(settings: &OpenAIRealtimeSettings) -> (r: SessionProperties)
    ensures
        r@ == initial_properties(settings@),
{
    let mut props = settings.session_properties.copy();
    if props.instructions.is_none() {
        props.instructions = clone_text_opt(&settings.base.system_instruction);
    }
    props
}

/// The properties of a session with a context: its instruction and its tools
/// come first.
pub open spec fn context_properties(
    settings: OpenAIRealtimeSettingsView,
    context: Option<Json>,
) -> SessionPropertiesView {
    let props = settings.session_properties;
    let told = match context {
        Some(c) => c.text_at("system_instruction"@),
        None => None,
    };
    let tools = match context {
        Some(c) => context_tools(c),
        None => None,
    };
    SessionPropertiesView {
        instructions: if told is Some {
            told
        } else if props.instructions is Some {
            props.instructions
        } else {
            settings.base.system_instruction
        },
        tools: if tools is Some {
            tools
        } else {
            props.tools
        },
        ..props
    }
}

/// Build the properties of a session with a context.
pub fn merged_properties(settings: &OpenAIRealtimeSettings, context: &Option<Value>) -> (r:
    SessionProperties)
    ensures
        r@ == context_properties(settings@, json_opt(*context)),
{
    let mut props = settings.session_properties.copy();
    if let Some(c) = context {
        if let Some(instruction) = value_get(c, "system_instruction") {
            if let Some(text) = value_as_str(instruction) {
                props.instructions = Some(text.to_owned());
            }
        }
        if let Some(tools) = value_get(c, "tools") {
            if let Some(list) = value_as_array(tools) {
                assert(json_seq(list@).len() == list@.len());
                if list.len() > 0 {
                    props.tools = Some(tools.clone());
                }
            }
        }
    }
    if props.instructions.is_none() {
        props.instructions = clone_text_opt(&settings.base.system_instruction);
    }
    props
}

/// Whether turn detection is explicitly disabled.
pub open spec fn turn_detection_off(props: SessionPropertiesView) -> bool {
    match props.audio {
        Some(audio) => match audio.input {
            Some(input) => input.turn_detection == Some(
                None::<crate::services::openai::settings::TurnDetectionView>,
            ),
            None => false,
        },
        None => false,
    }
}

/// Whether turn detection is explicitly disabled.
pub fn turn_detection_disabled(props: &SessionProperties) -> (r: bool)
    ensures
        r == turn_detection_off(props@),
{
    match &props.audio {
        Some(audio) => match &audio.input {
            Some(input) => matches!(input.turn_detection, Some(None)),
            None => false,
        },
        None => false,
    }
}

/// Whether responses have audio: unless modalities are given without it.
pub open spec fn has_audio(props: SessionPropertiesView) -> bool {
    match props.output_modalities {
        Some(list) => list.contains("audio"@),
        None => true,
    }
}

pub(crate) fn has_audio_modality(props: &SessionProperties) -> (r: bool)
    ensures
        r == has_audio(props@),
{
    match &props.output_modalities {
        Some(list) => {
            let r = lists(list, "audio");
            assert(names_in(list@) =~= texts_in(list@));
            r
        },
        None => true,
    }
}

/// The modalities of a response: text and audio, unless others are given.
pub open spec fn response_modalities(props: SessionPropertiesView) -> Seq<Seq<char>> {
    match props.output_modalities {
        Some(list) => list,
        None => seq!["text"@, "audio"@],
    }
}

/// The properties of a response that is asked for.
pub open spec fn response_properties(props: SessionPropertiesView) -> ResponsePropertiesView {
    ResponsePropertiesView {
        output_modalities: Some(response_modalities(props)),
        ..ResponsePropertiesView::none()
    }
}

pub(crate) fn make_response_properties(props: &SessionProperties) -> (r: ResponseProperties)
    ensures
        r@ == response_properties(props@),
{
    let modalities: Vec<String> = match &props.output_modalities {
        Some(list) => copy_texts(list),
        None => {
            let mut list: Vec<String> = Vec::new();
            list.push("text".to_owned());
            list.push("audio".to_owned());
            proof {
                assert(texts_in(list@) =~= seq!["text"@, "audio"@]);
            }
            list
        },
    };
    let mut r = ResponseProperties::default();
    r.output_modalities = Some(modalities);
    r
}

// ---------------------------------------------------------------------------
// Addresses
// ---------------------------------------------------------------------------

/// The address of the service, unless another one is set.
pub const DEFAULT_BASE_URL: &'static str = "wss://api.openai.com/v1/realtime";

/// The model that is asked for, unless another one is set.
pub const DEFAULT_MODEL: &'static str = "gpt-4o-realtime-preview";

/// The host of an address: what stands between `wss://` or `ws://` and the next
/// slash.
pub open spec fn host_of(url: Seq<char>) -> Option<Seq<char>> {
    let rest = if "wss://"@.is_prefix_of(url) {
        Some(url.skip("wss://"@.len() as int))
    } else if "ws://"@.is_prefix_of(url) {
        Some(url.skip("ws://"@.len() as int))
    } else {
        None
    };
    match rest {
        Some(r) => Some(
            match first_at(r, '/', 0) {
                Some(end) => r.take(end),
                None => r,
            },
        ),
        None => None,
    }
}

/// The host of an address.
pub fn extract_host(url: &str) -> (r: Option<String>)
    ensures
        text_opt(r) == host_of(url@),
{
    let rest: String = match strip_prefix(url, "wss://") {
        Some(rest) => rest,
        None => match strip_prefix(url, "ws://") {
            Some(rest) => rest,
            None => return None,
        },
    };
    let chars = chars_of(rest.as_str());
    match find_char(&chars, '/') {
        Some(end) => {
            proof {
                assert(chars@.subrange(0, end as int) =~= chars@.take(end as int));
            }
            Some(text_from(&chars, 0, end))
        },
        None => Some(rest),
    }
}

} // verus!
