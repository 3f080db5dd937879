//! The OpenAI chat completions service.
use serde_json::Value;
use vstd::prelude::*;
use vstd::string::*;

use crate::frames::{
    calls_of, Direction, Frame, FrameEnvelope, FrameView, FunctionCallFromLLM,
    FunctionCallInProgressOf, FunctionCallOf, FunctionCallResultOf, FunctionCallResultProperties,
    LlmTokenUsage, TextOf,
};
use crate::json::{
    empty_object, json_of, json_opt, json_seq, parse_value, parsed_json, value_array,
    value_as_array, value_as_i64, value_as_str, value_as_u64, value_bool, value_get,
    value_is_object, value_null, value_object, value_set, Json,
};
use crate::services::action::{service_actions_of, ServiceAction};
use crate::services::llm::{llm_process_frame, LLMServiceState, LlmModel};
use crate::services::openai::settings::{OpenAILLMSettings, OpenAILLMSettingsView};
use crate::services::openai::wire::{
    float_json, set_float, set_str, set_text, set_u32, set_value, text_json, u32_json,
};
use crate::text::{
    chars_of, find_char, first_at, lossy_text, strip_prefix, text_eq, text_from_bytes, trim_range,
    trimmed,
};

verus! {

// ---------------------------------------------------------------------------
// Actions
// ---------------------------------------------------------------------------

/// What the service asks the program to do. The program performs the actions in
/// their order; if one fails, it drops the rest.
#[derive(Debug)]
pub enum LlmAction {
    /// Send a new frame downstream.
    SendDownstream(Frame),
    /// Start to measure the time to the first byte.
    StartTtfb,
    /// Start to measure processing time.
    StartProcessing,
    /// Stop to measure the time to the first byte, and send the measurement.
    PushTtfb,
    /// Stop to measure processing time, and send the measurement.
    PushProcessingMetrics,
    /// Send a measurement of used tokens.
    PushUsage(LlmTokenUsage),
    /// Report an error that is not fatal.
    PushError(String),
    /// Post a request and stream the reply.
    Request { url: String, body: Value },
}

/// What is done with a frame.
#[derive(Debug)]
pub enum LlmStep {
    /// A context is answered.
    Answer(Vec<LlmAction>),
    /// The frame is routed as any language model service does.
    Route(Vec<ServiceAction>),
}

/// What an [`LlmAction`] says.
pub enum LlmActionView {
    SendDownstream(FrameView),
    StartTtfb,
    StartProcessing,
    PushTtfb,
    PushProcessingMetrics,
    PushUsage(LlmTokenUsage),
    PushError(Seq<char>),
    Request { url: Seq<char>, body: Json },
}

impl View for LlmAction {
    type V = LlmActionView;

    open spec fn view(&self) -> LlmActionView {
        match *self {
            LlmAction::SendDownstream(f) => LlmActionView::SendDownstream(f@),
            LlmAction::StartTtfb => LlmActionView::StartTtfb,
            LlmAction::StartProcessing => LlmActionView::StartProcessing,
            LlmAction::PushTtfb => LlmActionView::PushTtfb,
            LlmAction::PushProcessingMetrics => LlmActionView::PushProcessingMetrics,
            LlmAction::PushUsage(u) => LlmActionView::PushUsage(u),
            LlmAction::PushError(e) => LlmActionView::PushError(e@),
            LlmAction::Request { url, body } => LlmActionView::Request {
                url: url@,
                body: json_of(body),
            },
        }
    }
}

/// The actions in a list.
pub open spec fn llm_actions_of(s: Seq<LlmAction>) -> Seq<LlmActionView> {
    s.map_values(|a: LlmAction| a@)
}

fn emit(list: &mut Vec<LlmAction>, a: LlmAction)
    ensures
        llm_actions_of(final(list)@) == llm_actions_of(old(list)@).push(a@),
{
    list.push(a);
    proof {
        assert(llm_actions_of(list@) =~= llm_actions_of(old(list)@).push(a@));
    }
}

// ---------------------------------------------------------------------------
// Usage
// ---------------------------------------------------------------------------

/// The low 32 bits of a number.
pub open spec fn low_bits(n: u64) -> u32 {
    (n % 0x1_0000_0000) as u32
}

/// The low 32 bits of a number member; zero where there is none.
pub open spec fn token_count(j: Json, key: Seq<char>) -> u32 {
    match j.unsigned_at(key) {
        Some(n) => low_bits(n),
        None => 0,
    }
}

/// The low 32 bits of a number member of a member.
pub open spec fn token_detail(j: Json, outer: Seq<char>, inner: Seq<char>) -> Option<u32> {
    match j.get(outer) {
        Some(d) => match d.unsigned_at(inner) {
            Some(n) => Some(low_bits(n)),
            None => None,
        },
        None => None,
    }
}

/// The token usage that a document says.
pub open spec fn usage_of(j: Json) -> LlmTokenUsage {
    LlmTokenUsage {
        prompt_tokens: token_count(j, "prompt_tokens"@),
        completion_tokens: token_count(j, "completion_tokens"@),
        total_tokens: token_count(j, "total_tokens"@),
        cache_read_input_tokens: token_detail(j, "prompt_tokens_details"@, "cached_tokens"@),
        cache_creation_input_tokens: None,
        reasoning_tokens: token_detail(j, "completion_tokens_details"@, "reasoning_tokens"@),
    }
}

fn count_field(v: &Value, key: &str) -> (r: u32)
    ensures
        r == token_count(json_of(*v), key@),
{
    match value_get(v, key) {
        Some(x) => match value_as_u64(x) {
            Some(n) => (n % 0x1_0000_0000) as u32,
            None => 0,
        },
        None => 0,
    }
}

fn detail_field(v: &Value, outer: &str, inner: &str) -> (r: Option<u32>)
    ensures
        r == token_detail(json_of(*v), outer@, inner@),
{
    match value_get(v, outer) {
        Some(d) => match value_get(d, inner) {
            Some(x) => match value_as_u64(x) {
                Some(n) => Some((n % 0x1_0000_0000) as u32),
                None => None,
            },
            None => None,
        },
        None => None,
    }
}

/// Parse a usage object into a token usage.
pub fn parse_usage(usage: &Value) -> (r: LlmTokenUsage)
    ensures
        r == usage_of(json_of(*usage)),
{
    LlmTokenUsage {
        prompt_tokens: count_field(usage, "prompt_tokens"),
        completion_tokens: count_field(usage, "completion_tokens"),
        total_tokens: count_field(usage, "total_tokens"),
        cache_read_input_tokens: detail_field(usage, "prompt_tokens_details", "cached_tokens"),
        cache_creation_input_tokens: None,
        reasoning_tokens: detail_field(usage, "completion_tokens_details", "reasoning_tokens"),
    }
}

// ---------------------------------------------------------------------------
// Tool calls
// ---------------------------------------------------------------------------

/// A tool call put together from the pieces that a stream brings.
#[derive(Debug)]
pub struct ToolCall {
    pub name: String,
    pub arguments: String,
    pub id: String,
}

/// What a [`ToolCall`] says.
pub struct ToolCallView {
    pub name: Seq<char>,
    pub arguments: Seq<char>,
    pub id: Seq<char>,
}

impl View for ToolCall {
    type V = ToolCallView;

    open spec fn view(&self) -> ToolCallView {
        ToolCallView { name: self.name@, arguments: self.arguments@, id: self.id@ }
    }
}

/// The tool calls in a list.
pub open spec fn tool_calls_of(s: Seq<ToolCall>) -> Seq<ToolCallView> {
    s.map_values(|c: ToolCall| c@)
}

impl ToolCallView {
    /// Nothing yet.
    pub open spec fn empty() -> ToolCallView {
        ToolCallView { name: Seq::empty(), arguments: Seq::empty(), id: Seq::empty() }
    }

    /// A call with one more piece: name and arguments grow, the id is replaced.
    pub open spec fn grown(self, piece: Json) -> ToolCallView {
        let function = piece.get("function"@);
        ToolCallView {
            name: self.name + match function {
                Some(f) => match f.text_at("name"@) {
                    Some(t) => t,
                    None => Seq::empty(),
                },
                None => Seq::empty(),
            },
            arguments: self.arguments + match function {
                Some(f) => match f.text_at("arguments"@) {
                    Some(t) => t,
                    None => Seq::empty(),
                },
                None => Seq::empty(),
            },
            id: match piece.text_at("id"@) {
                Some(t) => t,
                None => self.id,
            },
        }
    }
}

/// The tool calls that a stream has brought so far.
#[derive(Debug)]
pub struct ToolCalls {
    complete: Vec<ToolCall>,
    current: ToolCall,
    current_index: i64,
}

/// What a [`ToolCalls`] says.
pub struct ToolCallsModel {
    pub complete: Seq<ToolCallView>,
    pub current: ToolCallView,
    /// The index of the current call; -1 before the first.
    pub current_index: i64,
}

/// The index that a piece belongs to.
pub open spec fn piece_index(piece: Json) -> i64 {
    match piece.get("index"@) {
        Some(i) => match i.signed() {
            Some(n) => n,
            None => 0,
        },
        None => 0,
    }
}

impl ToolCallsModel {
    /// No tool calls.
    pub open spec fn none() -> ToolCallsModel {
        ToolCallsModel {
            complete: Seq::empty(),
            current: ToolCallView::empty(),
            current_index: -1i64,
        }
    }

    /// A piece arrives. One with another index begins a new call.
    pub open spec fn taken(self, piece: Json) -> ToolCallsModel {
        let index = piece_index(piece);
        if index != self.current_index && self.current_index >= 0 {
            ToolCallsModel {
                complete: self.complete.push(self.current),
                current: ToolCallView::empty().grown(piece),
                current_index: index,
            }
        } else {
            ToolCallsModel {
                current: self.current.grown(piece),
                current_index: index,
                ..self
            }
        }
    }

    /// Pieces arrive, one after the other.
    pub open spec fn all_taken(self, pieces: Seq<Json>) -> ToolCallsModel
        decreases pieces.len(),
    {
        if pieces.len() == 0 {
            self
        } else {
            self.all_taken(pieces.drop_last()).taken(pieces.last())
        }
    }

    /// The calls at the end of the stream. The last one counts if it has a name.
    pub open spec fn finished(self) -> Seq<ToolCallView> {
        if self.current_index >= 0 && self.current.name.len() > 0 {
            self.complete.push(self.current)
        } else {
            self.complete
        }
    }
}

impl View for ToolCalls {
    type V = ToolCallsModel;

    closed spec fn view(&self) -> ToolCallsModel {
        ToolCallsModel {
            complete: tool_calls_of(self.complete@),
            current: self.current@,
            current_index: self.current_index,
        }
    }
}

fn empty_call() -> (r: ToolCall)
    ensures
        r@ == ToolCallView::empty(),
{
    ToolCall { name: String::new(), arguments: String::new(), id: String::new() }
}

/// Appends a text member to a text.
fn append_member(text: &mut String, v: &Value, key: &str)
    ensures
        final(text)@ == old(text)@ + match json_of(*v).text_at(key@) {
            Some(t) => t,
            None => Seq::empty(),
        },
{
    let ghost before = text@;
    proof {
        assert(before + Seq::<char>::empty() =~= before);
    }
    if let Some(x) = value_get(v, key) {
        if let Some(s) = value_as_str(x) {
            text.append(s);
        }
    }
}

impl ToolCalls {
    pub fn new() -> (r: Self)
        ensures
            r@ == ToolCallsModel::none(),
    {
        let r = ToolCalls { complete: Vec::new(), current: empty_call(), current_index: -1 };
        proof {
            assert(tool_calls_of(r.complete@) =~= Seq::empty());
        }
        r
    }

    /// Takes a piece.
    pub fn take(&mut self, piece: &Value)
        ensures
            final(self)@ == old(self)@.taken(json_of(*piece)),
    {
        let index: i64 = match value_get(piece, "index") {
            Some(i) => match value_as_i64(i) {
                Some(n) => n,
                None => 0,
            },
            None => 0,
        };
        if index != self.current_index && self.current_index >= 0 {
            let mut done = empty_call();
            std::mem::swap(&mut self.current, &mut done);
            let ghost said = done@;
            self.complete.push(done);
            proof {
                assert(tool_calls_of(self.complete@) =~= tool_calls_of(old(self).complete@).push(
                    said,
                ));
            }
        }
        self.current_index = index;
        let ghost begun = self.current@;
        proof {
            assert(begun.name + Seq::<char>::empty() =~= begun.name);
            assert(begun.arguments + Seq::<char>::empty() =~= begun.arguments);
        }
        if let Some(function) = value_get(piece, "function") {
            append_member(&mut self.current.name, function, "name");
            append_member(&mut self.current.arguments, function, "arguments");
        }
        if let Some(id) = value_get(piece, "id") {
            if let Some(s) = value_as_str(id) {
                self.current.id = s.to_owned();
            }
        }
        assert(self.current@ == begun.grown(json_of(*piece)));
    }

    /// Takes pieces, one after the other.
    pub fn take_all(&mut self, pieces: &Vec<Value>)
        ensures
            final(self)@ == old(self)@.all_taken(json_seq(pieces@)),
    {
        let ghost all = json_seq(pieces@);
        let ghost start = self@;
        let mut i: usize = 0;
        proof {
            assert(all.take(0) =~= Seq::empty());
        }
        while i < pieces.len()
            invariant
                i <= pieces@.len(),
                all == json_seq(pieces@),
                self@ == start.all_taken(all.take(i as int)),
            decreases pieces@.len() - i,
        {
            self.take(&pieces[i]);
            proof {
                assert(all.take(i + 1).drop_last() =~= all.take(i as int));
                assert(all.take(i + 1).last() == json_of(pieces@[i as int]));
            }
            i = i + 1;
        }
        proof {
            assert(all.take(all.len() as int) =~= all);
        }
    }

    /// The calls at the end of the stream.
    pub fn finish(self) -> (r: Vec<ToolCall>)
        ensures
            tool_calls_of(r@) == self@.finished(),
    {
        let ghost before = tool_calls_of(self.complete@);
        let mut out = self.complete;
        if self.current_index >= 0 && !self.current.name.as_str().is_empty() {
            let ghost said = self.current@;
            out.push(self.current);
            proof {
                assert(tool_calls_of(out@) =~= before.push(said));
            }
        }
        out
    }
}

// ---------------------------------------------------------------------------
// The completion stream
// ---------------------------------------------------------------------------

/// The state of a [`CompletionStream`].
pub struct StreamModel {
    pub skip_tts: Option<bool>,
    pub metrics_enabled: bool,
    pub usage_enabled: bool,
    /// Text that waits for the end of its line.
    pub buffer: Seq<char>,
    pub tools: ToolCallsModel,
    /// Whether the time to the first byte was measured.
    pub ttfb_stopped: bool,
}

impl StreamModel {
    /// A stream that was just opened.
    pub open spec fn fresh(
        skip_tts: Option<bool>,
        metrics_enabled: bool,
        usage_enabled: bool,
    ) -> StreamModel {
        StreamModel {
            skip_tts,
            metrics_enabled,
            usage_enabled,
            buffer: Seq::empty(),
            tools: ToolCallsModel::none(),
            ttfb_stopped: false,
        }
    }

    /// The usage that an event reports.
    pub open spec fn usage_actions(self, data: Json) -> Seq<LlmActionView> {
        match data.get("usage"@) {
            Some(usage) => if usage is Object && usage.get("total_tokens"@) is Some
                && self.usage_enabled {
                seq![LlmActionView::PushUsage(usage_of(usage))]
            } else {
                Seq::empty()
            },
            None => Seq::empty(),
        }
    }

    /// The change that an event brings: pieces of tool calls, or else text.
    pub open spec fn delta_taken(self, delta: Json) -> (StreamModel, Seq<LlmActionView>) {
        match delta.elements_at("tool_calls"@) {
            Some(pieces) => (
                StreamModel { tools: self.tools.all_taken(pieces), ..self },
                Seq::empty(),
            ),
            None => match delta.text_at("content"@) {
                Some(text) => if text.len() > 0 {
                    (
                        self,
                        seq![
                            LlmActionView::SendDownstream(
                                FrameView::LLMText(
                                    TextOf {
                                        text,
                                        skip_tts: self.skip_tts,
                                        includes_inter_frame_spaces: false,
                                        append_to_context: true,
                                    },
                                ),
                            ),
                        ],
                    )
                } else {
                    (self, Seq::empty())
                },
                None => (self, Seq::empty()),
            },
        }
    }

    /// An event of the stream is taken.
    pub open spec fn event_taken(self, data: Json) -> (StreamModel, Seq<LlmActionView>) {
        let usage = self.usage_actions(data);
        let choices = data.elements_at("choices"@);
        if choices is None || choices->0.len() == 0 {
            (self, usage)
        } else {
            // The first choice is the first byte.
            let ttfb = if self.metrics_enabled && !self.ttfb_stopped {
                seq![LlmActionView::PushTtfb]
            } else {
                Seq::empty()
            };
            let s = StreamModel {
                ttfb_stopped: self.ttfb_stopped || self.metrics_enabled,
                ..self
            };
            match choices->0[0].get("delta"@) {
                Some(delta) => {
                    let (s, text) = s.delta_taken(delta);
                    (s, usage + ttfb + text)
                },
                None => (s, usage + ttfb),
            }
        }
    }

    /// A line of the stream is taken. Lines that are no data, or whose data is
    /// no document, are passed over.
    pub open spec fn line_taken(self, line: Seq<char>) -> (StreamModel, Seq<LlmActionView>) {
        if "data: "@.is_prefix_of(line) {
            match parsed_json(line.skip("data: "@.len() as int)) {
                Some(data) => self.event_taken(data),
                None => (self, Seq::empty()),
            }
        } else {
            (self, Seq::empty())
        }
    }

    /// Text arrives.
    pub open spec fn text_taken(self, text: Seq<char>) -> (StreamModel, Seq<LlmActionView>) {
        lines_taken(StreamModel { buffer: self.buffer + text, ..self })
    }
}

/// The complete lines in the buffer are taken, up to the end mark.
pub open spec fn lines_taken(s: StreamModel) -> (StreamModel, Seq<LlmActionView>)
    decreases s.buffer.len() via lines_taken_decreases
{
    match first_at(s.buffer, '\n', 0) {
        None => (s, Seq::empty()),
        Some(end) => {
            let line = trimmed(s.buffer.take(end));
            let t = StreamModel { buffer: s.buffer.skip(end + 1), ..s };
            if line == "data: [DONE]"@ {
                (t, Seq::empty())
            } else {
                let (t, first) = t.line_taken(line);
                let (t, rest) = lines_taken(t);
                (t, first + rest)
            }
        },
    }
}

proof fn lemma_first_at(s: Seq<char>, c: char, from: int)
    requires
        0 <= from,
    ensures
        match first_at(s, c, from) {
            Some(i) => from <= i < s.len() && s[i] == c && forall|k: int|
                from <= k < i ==> s[k] != c,
            None => forall|k: int| from <= k < s.len() ==> s[k] != c,
        },
    decreases s.len() - from,
{
    if from < s.len() && s[from] != c {
        lemma_first_at(s, c, from + 1);
    }
}

#[via_fn]
proof fn lines_taken_decreases(s: StreamModel) {
    lemma_first_at(s.buffer, '\n', 0);
    if let Some(end) = first_at(s.buffer, '\n', 0) {
        let line = trimmed(s.buffer.take(end));
        let t = StreamModel { buffer: s.buffer.skip(end + 1), ..s };
        lemma_line_keeps_buffer(t, line);
    }
}

proof fn lemma_line_keeps_buffer(s: StreamModel, line: Seq<char>)
    ensures
        s.line_taken(line).0.buffer == s.buffer,
{
}

/// The reply of a streaming request, as it arrives.
///
/// Takes the chunks of the reply, puts lines together, and says what the events
/// on them call for. Pieces of tool calls are gathered until the end.
#[derive(Debug)]
pub struct CompletionStream {
    skip_tts: Option<bool>,
    metrics_enabled: bool,
    usage_enabled: bool,
    line_buf: Vec<char>,
    tools: ToolCalls,
    ttfb_stopped: bool,
}

impl View for CompletionStream {
    type V = StreamModel;

    closed spec fn view(&self) -> StreamModel {
        StreamModel {
            skip_tts: self.skip_tts,
            metrics_enabled: self.metrics_enabled,
            usage_enabled: self.usage_enabled,
            buffer: self.line_buf@,
            tools: self.tools@,
            ttfb_stopped: self.ttfb_stopped,
        }
    }
}

impl CompletionStream {
    pub fn new(skip_tts: Option<bool>, metrics_enabled: bool, usage_enabled: bool) -> (r: Self)
        ensures
            r@ == StreamModel::fresh(skip_tts, metrics_enabled, usage_enabled),
    {
        CompletionStream {
            skip_tts,
            metrics_enabled,
            usage_enabled,
            line_buf: Vec::new(),
            tools: ToolCalls::new(),
            ttfb_stopped: false,
        }
    }

    /// Takes a change.
    fn take_delta(&mut self, delta: &Value, actions: &mut Vec<LlmAction>)
        ensures
            final(self)@ == old(self)@.delta_taken(json_of(*delta)).0,
            llm_actions_of(final(actions)@) == llm_actions_of(old(actions)@)
                + old(self)@.delta_taken(json_of(*delta)).1,
    {
        let ghost pre = self@;
        let ghost before = llm_actions_of(actions@);
        proof {
            assert(before + Seq::<LlmActionView>::empty() =~= before);
        }
        let pieces: Option<&Vec<Value>> = match value_get(delta, "tool_calls") {
            Some(calls) => value_as_array(calls),
            None => None,
        };
        match pieces {
            Some(pieces) => {
                self.tools.take_all(pieces);
            },
            None => {
                let content: Option<&str> = match value_get(delta, "content") {
                    Some(c) => value_as_str(c),
                    None => None,
                };
                if let Some(text) = content {
                    if !text.is_empty() {
                        emit(
                            actions,
                            LlmAction::SendDownstream(
                                Frame::LLMText(
                                    TextOf {
                                        text: text.to_owned(),
                                        skip_tts: self.skip_tts,
                                        includes_inter_frame_spaces: false,
                                        append_to_context: true,
                                    },
                                ),
                            ),
                        );
                    }
                }
            },
        }
        proof {
            assert(llm_actions_of(actions@) =~= before + pre.delta_taken(json_of(*delta)).1);
        }
    }

    /// Takes an event.
    pub fn take_event(&mut self, data: &Value) -> (r: Vec<LlmAction>)
        ensures
            (final(self)@, llm_actions_of(r@)) == old(self)@.event_taken(json_of(*data)),
    {
        let ghost pre = self@;
        let ghost j = json_of(*data);
        let mut actions: Vec<LlmAction> = Vec::new();
        if let Some(usage) = value_get(data, "usage") {
            if value_is_object(usage) && value_get(usage, "total_tokens").is_some()
                && self.usage_enabled {
                emit(&mut actions, LlmAction::PushUsage(parse_usage(usage)));
            }
        }
        proof {
            assert(llm_actions_of(actions@) =~= pre.usage_actions(j));
        }
        let choices: &Vec<Value> = match value_get(data, "choices") {
            Some(c) => match value_as_array(c) {
                Some(choices) => choices,
                None => return actions,
            },
            None => return actions,
        };
        assert(json_seq(choices@).len() == choices@.len());
        if choices.len() == 0 {
            return actions;
        }
        assert(json_seq(choices@)[0] == json_of(choices@[0]));
        if self.metrics_enabled && !self.ttfb_stopped {
            emit(&mut actions, LlmAction::PushTtfb);
            self.ttfb_stopped = true;
        }
        if let Some(delta) = value_get(&choices[0], "delta") {
            self.take_delta(delta, &mut actions);
        }
        proof {
            assert(llm_actions_of(actions@) =~= pre.event_taken(j).1);
        }
        actions
    }

    /// Takes a line.
    fn take_line(&mut self, line: &String) -> (r: Vec<LlmAction>)
        ensures
            (final(self)@, llm_actions_of(r@)) == old(self)@.line_taken(line@),
    {
        let none: Vec<LlmAction> = Vec::new();
        proof {
            assert(llm_actions_of(none@) =~= Seq::empty());
        }
        match strip_prefix(line.as_str(), "data: ") {
            Some(json) => match parse_value(json.as_str()) {
                Some(data) => self.take_event(&data),
                None => none,
            },
            None => none,
        }
    }

    /// Takes text of the reply.
    pub fn take_text(&mut self, text: &str) -> (r: Vec<LlmAction>)
        ensures
            (final(self)@, llm_actions_of(r@)) == old(self)@.text_taken(text@),
    {
        let mut chars = chars_of(text);
        self.line_buf.append(&mut chars);
        let ghost start = self@;
        let mut actions: Vec<LlmAction> = Vec::new();
        proof {
            assert(llm_actions_of(actions@) =~= Seq::empty());
            assert(Seq::<LlmActionView>::empty() + lines_taken(start).1
                =~= lines_taken(start).1);
        }
        loop
            invariant_except_break
                ({
                    let (s, rest) = lines_taken(self@);
                    (s, llm_actions_of(actions@) + rest)
                }) == lines_taken(start),
            ensures
                (self@, llm_actions_of(actions@)) == lines_taken(start),
            decreases self@.buffer.len(),
        {
            let ghost s0 = self@;
            let ghost done = llm_actions_of(actions@);
            proof {
                lemma_first_at(s0.buffer, '\n', 0);
                assert(done + Seq::<LlmActionView>::empty() =~= done);
            }
            match find_char(&self.line_buf, '\n') {
                None => {
                    break;
                },
                Some(end) => {
                    proof {
                        assert(self.line_buf@.subrange(0, end as int) =~= self.line_buf@.take(
                            end as int,
                        ));
                    }
                    let line = trim_range(&self.line_buf, 0, end);
                    let n: usize = self.line_buf.len();
                    assert(end < n);
                    self.line_buf = self.line_buf.split_off(end + 1);
                    proof {
                        assert(self.line_buf@ =~= s0.buffer.skip(end + 1));
                    }
                    if text_eq(line.as_str(), "data: [DONE]") {
                        break;
                    }
                    let ghost s1 = self@;
                    let mut more = self.take_line(&line);
                    let ghost said = llm_actions_of(more@);
                    actions.append(&mut more);
                    proof {
                        lemma_line_keeps_buffer(s1, line@);
                        assert(llm_actions_of(actions@) =~= done + said);
                        let rest = lines_taken(self@).1;
                        assert(done + (said + rest) =~= (done + said) + rest);
                    }
                },
            }
        }
        actions
    }

    /// Takes a chunk of the reply.
    pub fn take_chunk(&mut self, chunk: &[u8]) -> (r: Vec<LlmAction>)
        ensures
            (final(self)@, llm_actions_of(r@)) == old(self)@.text_taken(lossy_text(chunk@)),
    {
        let text = text_from_bytes(chunk);
        self.take_text(text.as_str())
    }

    /// The reply has ended: the tool calls to be run.
    pub fn finish(self) -> (r: Vec<ToolCall>)
        ensures
            tool_calls_of(r@) == self@.tools.finished(),
    {
        self.tools.finish()
    }

    /// The reply has ended: the run of its tool calls, where it asks for any.
    pub fn into_run(self, context: &Value) -> (r: Option<FunctionCallRun>)
        ensures
            r is None <==> self@.tools.finished().len() == 0,
            r is Some ==> r->0@ == CallRunModel::fresh(self@.tools.finished(), json_of(*context)),
    {
        let calls = self.finish();
        FunctionCallRun::new(&calls, context)
    }
}

// ---------------------------------------------------------------------------
// Function calls
// ---------------------------------------------------------------------------

/// The arguments of a call as a document: an empty object where the text is not
/// JSON.
pub open spec fn arguments_of(text: Seq<char>) -> Json {
    match parsed_json(text) {
        Some(j) => j,
        None => empty_object(),
    }
}

/// Parses the arguments of a call.
pub(crate) fn parse_arguments(text: &str) -> (r: Value)
    ensures
        json_of(r) == arguments_of(text@),
{
    match parse_value(text) {
        Some(v) => v,
        None => value_object(),
    }
}

/// The function call that a tool call asks for.
pub open spec fn asked_call(call: ToolCallView) -> FunctionCallOf<Seq<char>, Json> {
    FunctionCallOf {
        function_name: call.name,
        tool_call_id: call.id,
        arguments: arguments_of(call.arguments),
    }
}

/// What became of a function call.
#[derive(Debug)]
pub enum CallOutcome {
    /// The handler gave a result.
    Returned(Value),
    /// The handler took too long.
    TimedOut,
    /// There is no handler.
    NoHandler,
}

/// The result of a function call: that of the handler, null where it took too
/// long, an error where there is none.
pub open spec fn result_of(name: Seq<char>, outcome: CallOutcome) -> Json {
    match outcome {
        CallOutcome::Returned(v) => json_of(v),
        CallOutcome::TimedOut => Json::Null,
        CallOutcome::NoHandler => empty_object().with(
            "error"@,
            Json::Text("No handler for "@ + name),
        ),
    }
}

/// The result of a function call as a document.
pub fn call_result(name: &str, outcome: CallOutcome) -> (r: Value)
    ensures
        json_of(r) == result_of(name@, outcome),
{
    match outcome {
        CallOutcome::Returned(v) => v,
        CallOutcome::TimedOut => value_null(),
        CallOutcome::NoHandler => {
            let mut v = value_object();
            set_str(&mut v, "error", "No handler for ".to_owned().concat(name).as_str());
            v
        },
    }
}

/// A copy of a function call.
pub(crate) fn copy_call(call: &FunctionCallFromLLM) -> (r: FunctionCallFromLLM)
    ensures
        r@ == call@,
{
    FunctionCallOf {
        function_name: call.function_name.clone(),
        tool_call_id: call.tool_call_id.clone(),
        arguments: call.arguments.clone(),
    }
}

/// The frame that announces a call that is being carried out. A function that
/// is not registered is not cancelled by interruptions.
pub open spec fn progress_frame(
    call: FunctionCallOf<Seq<char>, Json>,
    registered: Option<bool>,
) -> FrameView {
    FrameView::FunctionCallInProgress(
        FunctionCallInProgressOf {
            function_name: call.function_name,
            tool_call_id: call.tool_call_id,
            arguments: call.arguments,
            cancel_on_interruption: registered == Some(true),
        },
    )
}

/// The frame that brings the result of a call.
pub open spec fn result_frame(call: FunctionCallOf<Seq<char>, Json>, result: Json) -> FrameView {
    FrameView::FunctionCallResult(
        FunctionCallResultOf {
            function_name: call.function_name,
            tool_call_id: call.tool_call_id,
            arguments: call.arguments,
            result,
            run_llm: Some(true),
            properties: Some(FunctionCallResultProperties { run_llm: Some(true) }),
        },
    )
}

/// Makes the frame that announces a call. `registered` says whether
/// interruptions cancel the function, where it is registered.
pub fn call_in_progress(call: &FunctionCallFromLLM, registered: Option<bool>) -> (r: Frame)
    ensures
        r@ == progress_frame(call@, registered),
{
    let cancel = match registered {
        Some(cancel) => cancel,
        None => false,
    };
    Frame::FunctionCallInProgress(
        FunctionCallInProgressOf {
            function_name: call.function_name.clone(),
            tool_call_id: call.tool_call_id.clone(),
            arguments: call.arguments.clone(),
            cancel_on_interruption: cancel,
        },
    )
}

/// Makes the frame that brings the result of a call.
pub fn call_completed(call: &FunctionCallFromLLM, result: Value) -> (r: Frame)
    ensures
        r@ == result_frame(call@, json_of(result)),
{
    Frame::FunctionCallResult(
        FunctionCallResultOf {
            function_name: call.function_name.clone(),
            tool_call_id: call.tool_call_id.clone(),
            arguments: call.arguments.clone(),
            result,
            run_llm: Some(true),
            properties: Some(FunctionCallResultProperties { run_llm: Some(true) }),
        },
    )
}

/// What a run of function calls asks the program to do. The program performs
/// the actions in their order; if one fails, it drops the rest and the run.
#[derive(Debug)]
pub enum CallAction {
    /// Broadcast a new frame.
    Broadcast(Frame),
    /// Look a function up by its name, then report to `looked_up`.
    LookUp(String),
    /// Run the handler of a function, if there is one, then report to
    /// `finished`.
    Run(FunctionCallFromLLM),
}

/// What a [`CallAction`] says.
pub enum CallActionView {
    Broadcast(FrameView),
    LookUp(Seq<char>),
    Run(FunctionCallOf<Seq<char>, Json>),
}

impl View for CallAction {
    type V = CallActionView;

    open spec fn view(&self) -> CallActionView {
        match *self {
            CallAction::Broadcast(f) => CallActionView::Broadcast(f@),
            CallAction::LookUp(name) => CallActionView::LookUp(name@),
            CallAction::Run(call) => CallActionView::Run(call@),
        }
    }
}

/// The actions in a list.
pub open spec fn call_actions_of(s: Seq<CallAction>) -> Seq<CallActionView> {
    s.map_values(|a: CallAction| a@)
}

fn emit_call(list: &mut Vec<CallAction>, a: CallAction)
    ensures
        call_actions_of(final(list)@) == call_actions_of(old(list)@).push(a@),
{
    list.push(a);
    proof {
        assert(call_actions_of(list@) =~= call_actions_of(old(list)@).push(a@));
    }
}

/// The function calls of a reply, carried out one after the other.
///
/// All calls are announced together. Then each function in turn is looked up,
/// its call is announced, its handler is run, and its result is broadcast.
#[derive(Debug)]
pub struct FunctionCallRun {
    calls: Vec<FunctionCallFromLLM>,
    position: usize,
    context: ContextParts,
}

/// What a [`FunctionCallRun`] says.
pub struct CallRunModel {
    pub calls: Seq<FunctionCallOf<Seq<char>, Json>>,
    /// Which call is next.
    pub position: int,
    /// What handlers see of the context.
    pub context: ContextPartsView,
}

impl View for FunctionCallRun {
    type V = CallRunModel;

    closed spec fn view(&self) -> CallRunModel {
        CallRunModel {
            calls: calls_of(self.calls@),
            position: self.position as int,
            context: self.context@,
        }
    }
}

impl CallRunModel {
    /// A run of the calls that a reply asks for.
    pub open spec fn fresh(calls: Seq<ToolCallView>, context: Json) -> CallRunModel {
        CallRunModel {
            calls: calls.map_values(|c: ToolCallView| asked_call(c)),
            position: 0,
            context: context_parts(context),
        }
    }

    /// The next call, if there is one left.
    pub open spec fn next(self) -> Option<FunctionCallOf<Seq<char>, Json>> {
        if self.position < self.calls.len() {
            Some(self.calls[self.position])
        } else {
            None
        }
    }

    /// The function of the next call is looked up.
    pub open spec fn looks_up(self) -> Seq<CallActionView> {
        match self.next() {
            Some(call) => seq![CallActionView::LookUp(call.function_name)],
            None => Seq::empty(),
        }
    }

    /// The run begins.
    pub open spec fn begun(self) -> Seq<CallActionView> {
        seq![CallActionView::Broadcast(FrameView::FunctionCallsStarted(self.calls))]
            + self.looks_up()
    }

    /// The function of the next call was looked up: the call is announced, and
    /// then carried out.
    pub open spec fn found(self, registered: Option<bool>) -> Seq<CallActionView> {
        match self.next() {
            Some(call) => seq![
                CallActionView::Broadcast(progress_frame(call, registered)),
                CallActionView::Run(call),
            ],
            None => Seq::empty(),
        }
    }

    /// The next call was carried out: its result is broadcast, and the call
    /// behind it is next.
    pub open spec fn done(self, outcome: CallOutcome) -> (CallRunModel, Seq<CallActionView>) {
        match self.next() {
            Some(call) => {
                let m = CallRunModel { position: self.position + 1, ..self };
                (
                    m,
                    seq![
                        CallActionView::Broadcast(
                            result_frame(call, result_of(call.function_name, outcome)),
                        ),
                    ] + m.looks_up(),
                )
            },
            None => (self, Seq::empty()),
        }
    }
}

impl FunctionCallRun {
    /// A run of tool calls in a context; nothing where there are no calls.
    pub fn new(tool_calls: &Vec<ToolCall>, context: &Value) -> (r: Option<Self>)
        ensures
            r is None <==> tool_calls@.len() == 0,
            r is Some ==> r->0@ == CallRunModel::fresh(
                tool_calls_of(tool_calls@),
                json_of(*context),
            ),
    {
        if tool_calls.len() == 0 {
            return None;
        }
        let ghost all = tool_calls_of(tool_calls@).map_values(|c: ToolCallView| asked_call(c));
        let mut calls: Vec<FunctionCallFromLLM> = Vec::new();
        let mut i: usize = 0;
        proof {
            assert(calls_of(calls@) =~= all.take(0));
        }
        while i < tool_calls.len()
            invariant
                i <= tool_calls@.len(),
                all == tool_calls_of(tool_calls@).map_values(|c: ToolCallView| asked_call(c)),
                calls_of(calls@) == all.take(i as int),
            decreases tool_calls@.len() - i,
        {
            let ghost done = calls_of(calls@);
            let call: &ToolCall = &tool_calls[i];
            calls.push(
                FunctionCallOf {
                    function_name: call.name.clone(),
                    tool_call_id: call.id.clone(),
                    arguments: parse_arguments(call.arguments.as_str()),
                },
            );
            proof {
                assert(calls_of(calls@) =~= done.push(all[i as int]));
                assert(all.take(i + 1) =~= all.take(i as int).push(all[i as int]));
            }
            i = i + 1;
        }
        proof {
            assert(all.take(all.len() as int) =~= all);
        }
        Some(FunctionCallRun { calls, position: 0, context: ContextParts::from_context(context) })
    }

    /// What handlers see of the context.
    pub fn context(&self) -> (r: &ContextParts)
        ensures
            r@ == self@.context,
    {
        &self.context
    }

    /// The frame that announces all calls.
    fn started(&self) -> (r: Frame)
        ensures
            r@ == FrameView::FunctionCallsStarted(self@.calls),
    {
        let ghost all = self@.calls;
        let mut calls: Vec<FunctionCallFromLLM> = Vec::new();
        let mut i: usize = 0;
        proof {
            assert(calls_of(calls@) =~= all.take(0));
        }
        while i < self.calls.len()
            invariant
                i <= self.calls@.len(),
                all == calls_of(self.calls@),
                calls_of(calls@) == all.take(i as int),
            decreases self.calls@.len() - i,
        {
            let ghost done = calls_of(calls@);
            calls.push(copy_call(&self.calls[i]));
            proof {
                assert(calls_of(calls@) =~= done.push(all[i as int]));
                assert(all.take(i + 1) =~= all.take(i as int).push(all[i as int]));
            }
            i = i + 1;
        }
        proof {
            assert(all.take(all.len() as int) =~= all);
        }
        Frame::FunctionCallsStarted(calls)
    }

    /// The function of the next call is looked up.
    fn look_up(&self, actions: &mut Vec<CallAction>)
        ensures
            call_actions_of(final(actions)@) == call_actions_of(old(actions)@) + self@.looks_up(),
    {
        if self.position < self.calls.len() {
            let name = self.calls[self.position].function_name.clone();
            emit_call(actions, CallAction::LookUp(name));
        }
        proof {
            assert(call_actions_of(actions@) =~= call_actions_of(old(actions)@)
                + self@.looks_up());
        }
    }

    /// The run begins.
    pub fn begin(&self) -> (r: Vec<CallAction>)
        ensures
            call_actions_of(r@) == self@.begun(),
    {
        let mut actions: Vec<CallAction> = Vec::new();
        emit_call(&mut actions, CallAction::Broadcast(self.started()));
        proof {
            assert(call_actions_of(actions@) =~= seq![
                CallActionView::Broadcast(FrameView::FunctionCallsStarted(self@.calls)),
            ]);
        }
        self.look_up(&mut actions);
        actions
    }

    /// The function of the next call was looked up. `registered` says whether
    /// interruptions cancel it, where it is registered.
    pub fn looked_up(&self, registered: Option<bool>) -> (r: Vec<CallAction>)
        ensures
            call_actions_of(r@) == self@.found(registered),
    {
        let mut actions: Vec<CallAction> = Vec::new();
        if self.position < self.calls.len() {
            let call: &FunctionCallFromLLM = &self.calls[self.position];
            emit_call(&mut actions, CallAction::Broadcast(call_in_progress(call, registered)));
            emit_call(&mut actions, CallAction::Run(copy_call(call)));
        }
        proof {
            assert(call_actions_of(actions@) =~= self@.found(registered));
        }
        actions
    }

    /// The next call was carried out.
    pub fn finished(&mut self, outcome: CallOutcome) -> (r: Vec<CallAction>)
        ensures
            (final(self)@, call_actions_of(r@)) == old(self)@.done(outcome),
    {
        let mut actions: Vec<CallAction> = Vec::new();
        if self.position < self.calls.len() {
            let call: &FunctionCallFromLLM = &self.calls[self.position];
            let result = call_result(call.function_name.as_str(), outcome);
            let frame = call_completed(call, result);
            self.position = self.position + 1;
            emit_call(&mut actions, CallAction::Broadcast(frame));
            let ghost first = call_actions_of(actions@);
            self.look_up(&mut actions);
            proof {
                assert(first =~= seq![CallActionView::Broadcast(frame@)]);
            }
        }
        proof {
            assert(call_actions_of(actions@) =~= old(self)@.done(outcome).1);
        }
        actions
    }
}

/// What is done for one call of a run.
pub open spec fn call_steps(
    call: FunctionCallOf<Seq<char>, Json>,
    registered: Option<bool>,
    outcome: CallOutcome,
) -> Seq<CallActionView> {
    seq![
        CallActionView::LookUp(call.function_name),
        CallActionView::Broadcast(progress_frame(call, registered)),
        CallActionView::Run(call),
        CallActionView::Broadcast(result_frame(call, result_of(call.function_name, outcome))),
    ]
}

impl CallRunModel {
    /// What is done for the calls at the front of a run, one after the other.
    pub open spec fn all_steps(self, reports: Seq<(Option<bool>, CallOutcome)>) -> Seq<
        CallActionView,
    >
        decreases reports.len(),
    {
        if reports.len() == 0 {
            Seq::empty()
        } else {
            self.all_steps(reports.drop_last()) + call_steps(
                self.calls[reports.len() - 1],
                reports.last().0,
                reports.last().1,
            )
        }
    }

    /// A run from its beginning, with what the program reports of call after
    /// call, and all that it asks for.
    pub open spec fn run(self, reports: Seq<(Option<bool>, CallOutcome)>) -> (
        CallRunModel,
        Seq<CallActionView>,
    )
        decreases reports.len(),
    {
        if reports.len() == 0 {
            (self, self.begun())
        } else {
            let (m, actions) = self.run(reports.drop_last());
            let (post, more) = m.done(reports.last().1);
            (post, actions + m.found(reports.last().0) + more)
        }
    }
}

/// A run announces all calls, then carries them out in their order: each is
/// looked up, announced, run and reported, and only then the next begins.
pub proof fn lemma_calls_run_in_order(
    m: CallRunModel,
    reports: Seq<(Option<bool>, CallOutcome)>,
)
    requires
        m.position == 0,
        reports.len() <= m.calls.len(),
    ensures
        m.run(reports).0 == (CallRunModel { position: reports.len() as int, ..m }),
        m.run(reports).1 == seq![
            CallActionView::Broadcast(FrameView::FunctionCallsStarted(m.calls)),
        ] + m.all_steps(reports) + m.run(reports).0.looks_up(),
    decreases reports.len(),
{
    let first = seq![CallActionView::Broadcast(FrameView::FunctionCallsStarted(m.calls))];
    if reports.len() == 0 {
        assert(m.run(reports).1 =~= first + m.all_steps(reports) + m.looks_up());
    } else {
        lemma_calls_run_in_order(m, reports.drop_last());
        let (mid, actions) = m.run(reports.drop_last());
        let (registered, outcome) = reports.last();
        let (post, more) = mid.done(outcome);
        assert(actions + mid.found(registered) + more =~= first + m.all_steps(reports)
            + post.looks_up());
    }
}

/// What function handlers see of the context.
#[derive(Debug, Clone)]
pub struct ContextParts {
    pub messages: Vec<Value>,
    pub tools: Option<Value>,
    pub tool_choice: Option<Value>,
}

/// What [`ContextParts`] say.
pub struct ContextPartsView {
    pub messages: Seq<Json>,
    pub tools: Option<Json>,
    pub tool_choice: Option<Json>,
}

impl View for ContextParts {
    type V = ContextPartsView;

    open spec fn view(&self) -> ContextPartsView {
        ContextPartsView {
            messages: json_seq(self.messages@),
            tools: json_opt(self.tools),
            tool_choice: json_opt(self.tool_choice),
        }
    }
}

/// What function handlers see of a context.
pub open spec fn context_parts(context: Json) -> ContextPartsView {
    ContextPartsView {
        messages: match context.elements_at("messages"@) {
            Some(list) => list,
            None => Seq::empty(),
        },
        tools: context.get("tools"@),
        tool_choice: context.get("tool_choice"@),
    }
}

/// What function handlers see where there is no context.
pub open spec fn no_context() -> ContextPartsView {
    ContextPartsView { messages: Seq::empty(), tools: None, tool_choice: None }
}

/// A copy of a list of documents.
pub(crate) fn copy_values(list: &Vec<Value>) -> (r: Vec<Value>)
    ensures
        json_seq(r@) == json_seq(list@),
{
    let ghost all = json_seq(list@);
    let mut out: Vec<Value> = Vec::new();
    let mut i: usize = 0;
    proof {
        assert(json_seq(out@) =~= all.take(0));
    }
    while i < list.len()
        invariant
            i <= list@.len(),
            all == json_seq(list@),
            json_seq(out@) == all.take(i as int),
        decreases list@.len() - i,
    {
        let ghost done = json_seq(out@);
        out.push(list[i].clone());
        proof {
            assert(json_seq(out@) =~= done.push(all[i as int]));
            assert(all.take(i + 1) =~= all.take(i as int).push(all[i as int]));
        }
        i = i + 1;
    }
    proof {
        assert(all.take(all.len() as int) =~= all);
    }
    out
}

/// A copy of a member of a document.
pub(crate) fn member_copy(v: &Value, key: &str) -> (r: Option<Value>)
    ensures
        json_opt(r) == json_of(*v).get(key@),
{
    match value_get(v, key) {
        Some(x) => Some(x.clone()),
        None => None,
    }
}

impl ContextParts {
    /// Takes a context document apart.
    pub fn from_context(context: &Value) -> (r: Self)
        ensures
            r@ == context_parts(json_of(*context)),
    {
        let messages: Vec<Value> = match value_get(context, "messages") {
            Some(m) => match value_as_array(m) {
                Some(list) => copy_values(list),
                None => Vec::new(),
            },
            None => Vec::new(),
        };
        proof {
            if json_of(*context).elements_at("messages"@) is None {
                assert(json_seq(messages@) =~= Seq::empty());
            }
        }
        ContextParts {
            messages,
            tools: member_copy(context, "tools"),
            tool_choice: member_copy(context, "tool_choice"),
        }
    }

    /// Takes a context apart, if there is one.
    pub fn from_context_opt(context: &Option<Value>) -> (r: Self)
        ensures
            r@ == match json_opt(*context) {
                Some(c) => context_parts(c),
                None => no_context(),
            },
    {
        match context {
            Some(c) => Self::from_context(c),
            None => {
                let messages: Vec<Value> = Vec::new();
                proof {
                    assert(json_seq(messages@) =~= Seq::empty());
                }
                ContextParts { messages, tools: None, tool_choice: None }
            },
        }
    }
}

// ---------------------------------------------------------------------------
// The service
// ---------------------------------------------------------------------------

/// The address of the service, unless another one is set.
pub const DEFAULT_BASE_URL: &'static str = "https://api.openai.com/v1";

/// The state of an [`OpenAILLMService`].
pub struct LlmServiceModel {
    /// The part that all language model services have.
    pub state: LlmModel,
    pub api_key: Seq<char>,
    pub base_url: Seq<char>,
    /// The settings that requests are built from.
    pub settings: OpenAILLMSettingsView,
}

impl LlmServiceModel {
    /// What is done with a context before the reply is streamed.
    pub open spec fn context_begun(self, context: Json) -> Seq<LlmActionView> {
        seq![
            LlmActionView::SendDownstream(
                FrameView::LLMFullResponseStart { skip_tts: self.state.skip_tts },
            ),
        ] + (if self.state.base.metrics_enabled {
            seq![LlmActionView::StartTtfb, LlmActionView::StartProcessing]
        } else {
            Seq::empty()
        }) + seq![
            LlmActionView::Request {
                url: self.base_url + "/chat/completions"@,
                body: request_body(self.settings, context),
            },
        ]
    }
}

/// The messages of a request: the system instruction, if there is one, and the
/// messages of the context. Nothing where the context has no messages at all.
pub open spec fn request_messages(instruction: Option<Seq<char>>, context: Json) -> Option<Json> {
    match context.get("messages"@) {
        Some(messages) => Some(
            Json::Array(
                (match instruction {
                    Some(text) => seq![
                        empty_object().with("role"@, Json::Text("system"@)).with(
                            "content"@,
                            Json::Text(text),
                        ),
                    ],
                    None => Seq::empty(),
                }) + (match messages.elements() {
                    Some(list) => list,
                    None => Seq::empty(),
                }),
            ),
        ),
        None => None,
    }
}

/// The tools of a context, if there are any.
pub open spec fn context_tools(context: Json) -> Option<Json> {
    match context.elements_at("tools"@) {
        Some(list) => if list.len() > 0 {
            context.get("tools"@)
        } else {
            None
        },
        None => None,
    }
}

/// The body of a request before extra members are set.
pub open spec fn plain_request(settings: OpenAILLMSettingsView, context: Json) -> Json {
    empty_object().with("stream"@, Json::Bool(true)).with(
        "stream_options"@,
        empty_object().with("include_usage"@, Json::Bool(true)),
    ).with_some("model"@, text_json(settings.base.model)).with_some(
        "messages"@,
        request_messages(settings.base.system_instruction, context),
    ).with_some("tools"@, context_tools(context)).with_some(
        "tool_choice"@,
        context.get("tool_choice"@),
    ).with_some("temperature"@, float_json(settings.base.temperature)).with_some(
        "max_tokens"@,
        u32_json(settings.base.max_tokens),
    ).with_some("max_completion_tokens"@, u32_json(settings.max_completion_tokens)).with_some(
        "top_p"@,
        float_json(settings.base.top_p),
    ).with_some("frequency_penalty"@, float_json(settings.base.frequency_penalty)).with_some(
        "presence_penalty"@,
        float_json(settings.base.presence_penalty),
    ).with_some("seed"@, u32_json(settings.base.seed))
}

/// The body of a request. Extra members come in place of all others.
pub open spec fn request_body(settings: OpenAILLMSettingsView, context: Json) -> Json {
    Json::Object(plain_request(settings, context)->Object_0.union_prefer_right(settings.extra))
}

/// OpenAI LLM service.
///
/// Speaks the chat completions protocol, with streaming replies. Handles text
/// generation and tool calls.
#[derive(Debug)]
pub struct OpenAILLMService {
    state: LLMServiceState,
    api_key: String,
    base_url: String,
    openai_settings: OpenAILLMSettings,
}

impl View for OpenAILLMService {
    type V = LlmServiceModel;

    closed spec fn view(&self) -> LlmServiceModel {
        LlmServiceModel {
            state: self.state@,
            api_key: self.api_key@,
            base_url: self.base_url@,
            settings: self.openai_settings@,
        }
    }
}

impl OpenAILLMService {
    pub fn new(api_key: String, settings: OpenAILLMSettings) -> (r: Self)
        ensures
            r@ == (LlmServiceModel {
                state: LlmModel::fresh("OpenAILLMService"@, settings@.base),
                api_key: api_key@,
                base_url: DEFAULT_BASE_URL@,
                settings: settings@,
            }),
    {
        OpenAILLMService {
            state: LLMServiceState::new("OpenAILLMService".to_owned(), settings.base.copy()),
            api_key,
            base_url: DEFAULT_BASE_URL.to_owned(),
            openai_settings: settings,
        }
    }

    /// Set a custom base URL (for compatible services, local models, etc.).
    pub fn with_base_url(self, url: String) -> (r: Self)
        ensures
            r@ == (LlmServiceModel { base_url: url@, ..self@ }),
    {
        let mut s = self;
        s.base_url = url;
        s
    }

    /// The part that all language model services have.
    pub fn state(&self) -> (r: &LLMServiceState)
        ensures
            r@ == self@.state,
    {
        &self.state
    }

    /// The part that all language model services have, to be changed.
    pub fn state_mut(&mut self) -> (r: &mut LLMServiceState)
        ensures
            r@ == old(self)@.state,
            final(self)@ == (LlmServiceModel { state: final(r)@, ..old(self)@ }),
    {
        &mut self.state
    }

    /// The value of the authorization header.
    pub fn authorization(&self) -> (r: String)
        ensures
            r@ == "Bearer "@ + self@.api_key,
    {
        "Bearer ".to_owned().concat(self.api_key.as_str())
    }

    /// The messages of a request.
    fn build_messages(&self, messages: &Value) -> (r: Value)
        ensures
            ({
                let context = empty_object().with("messages"@, json_of(*messages));
                Some(json_of(r)) == request_messages(
                    self@.settings.base.system_instruction,
                    context,
                )
            }),
    {
        let mut list: Vec<Value> = Vec::new();
        if let Some(instruction) = &self.openai_settings.base.system_instruction {
            let mut system = value_object();
            set_str(&mut system, "role", "system");
            set_str(&mut system, "content", instruction.as_str());
            list.push(system);
        }
        let ghost first = json_seq(list@);
        let mut more: Vec<Value> = match value_as_array(messages) {
            Some(all) => copy_values(all),
            None => Vec::new(),
        };
        let ghost rest = json_seq(more@);
        list.append(&mut more);
        proof {
            assert(json_seq(list@) =~= first + rest);
            assert(rest =~= match json_of(*messages).elements() {
                Some(all) => all,
                None => Seq::empty(),
            });
            if let Some(text) = self@.settings.base.system_instruction {
                assert(first =~= seq![
                    empty_object().with("role"@, Json::Text("system"@)).with(
                        "content"@,
                        Json::Text(text),
                    ),
                ]);
            } else {
                assert(first =~= Seq::empty());
            }
        }
        value_array(list)
    }

    /// Build the body of a request for a context.
    pub fn build_request_body(&self, context: &Value) -> (r: Value)
        ensures
            json_of(r) == request_body(self@.settings, json_of(*context)),
    {
        let mut body = value_object();
        value_set(&mut body, "stream", value_bool(true));
        let mut options = value_object();
        value_set(&mut options, "include_usage", value_bool(true));
        value_set(&mut body, "stream_options", options);
        let base = &self.openai_settings.base;
        set_text(&mut body, "model", &base.model);
        if let Some(messages) = value_get(context, "messages") {
            value_set(&mut body, "messages", self.build_messages(messages));
        }
        if let Some(tools) = value_get(context, "tools") {
            if let Some(list) = value_as_array(tools) {
                assert(json_seq(list@).len() == list@.len());
                if list.len() > 0 {
                    value_set(&mut body, "tools", tools.clone());
                }
            }
        }
        let tool_choice = member_copy(context, "tool_choice");
        set_value(&mut body, "tool_choice", &tool_choice);
        set_float(&mut body, "temperature", &base.temperature);
        set_u32(&mut body, "max_tokens", &base.max_tokens);
        set_u32(
            &mut body,
            "max_completion_tokens",
            &self.openai_settings.max_completion_tokens,
        );
        set_float(&mut body, "top_p", &base.top_p);
        set_float(&mut body, "frequency_penalty", &base.frequency_penalty);
        set_float(&mut body, "presence_penalty", &base.presence_penalty);
        set_u32(&mut body, "seed", &base.seed);
        self.openai_settings.extra.set_members(&mut body);
        body
    }

    /// A context arrives: what is done before the reply is streamed.
    pub fn begin_context(&self, context: &Value) -> (r: Vec<LlmAction>)
        ensures
            llm_actions_of(r@) == self@.context_begun(json_of(*context)),
    {
        let mut actions: Vec<LlmAction> = Vec::new();
        emit(
            &mut actions,
            LlmAction::SendDownstream(Frame::LLMFullResponseStart { skip_tts: self.state.skip_tts }),
        );
        if self.state.base.metrics_enabled() {
            emit(&mut actions, LlmAction::StartTtfb);
            emit(&mut actions, LlmAction::StartProcessing);
        }
        let url = self.base_url.clone().concat("/chat/completions");
        let body = self.build_request_body(context);
        emit(&mut actions, LlmAction::Request { url, body });
        proof {
            let start = LlmActionView::SendDownstream(
                FrameView::LLMFullResponseStart { skip_tts: self@.state.skip_tts },
            );
            let request = LlmActionView::Request {
                url: self@.base_url + "/chat/completions"@,
                body: request_body(self@.settings, json_of(*context)),
            };
            if self@.state.base.metrics_enabled {
                assert(llm_actions_of(actions@) =~= seq![start] + seq![
                    LlmActionView::StartTtfb,
                    LlmActionView::StartProcessing,
                ] + seq![request]);
            } else {
                assert(llm_actions_of(actions@) =~= seq![start] + Seq::empty() + seq![request]);
            }
        }
        actions
    }

    /// Processes a frame: a context is answered, and is not pushed on. Other
    /// frames are handled as any language model service does.
    pub fn process_frame(&mut self, envelope: &FrameEnvelope, direction: Direction) -> (r: LlmStep)
        ensures
            match envelope@.frame {
                FrameView::LLMContext(context) => {
                    &&& r matches LlmStep::Answer(actions) && llm_actions_of(actions@) == old(
                        self,
                    )@.context_begun(context)
                    &&& final(self)@ == old(self)@
                },
                frame => {
                    &&& r matches LlmStep::Route(actions) && service_actions_of(actions@)
                        == LlmModel::actions(frame, direction)
                    &&& final(self)@ == (LlmServiceModel {
                        state: old(self)@.state.noted(frame),
                        ..old(self)@
                    })
                },
            },
    {
        match &envelope.frame {
            Frame::LLMContext(context) => LlmStep::Answer(self.begin_context(context)),
            _ => LlmStep::Route(llm_process_frame(&mut self.state, envelope, direction)),
        }
    }

    /// A stream for the reply.
    pub fn open_stream(&self) -> (r: CompletionStream)
        ensures
            r@ == StreamModel::fresh(
                self@.state.skip_tts,
                self@.state.base.metrics_enabled,
                self@.state.base.usage_metrics_enabled,
            ),
    {
        CompletionStream::new(
            self.state.skip_tts,
            self.state.base.metrics_enabled(),
            self.state.base.usage_metrics_enabled(),
        )
    }

    /// The reply has ended, or failed with an error: the end frame comes in
    /// either case.
    pub fn end_context(&self, error: Option<&str>) -> (r: Vec<LlmAction>)
        ensures
            llm_actions_of(r@) == (match error {
                Some(e) => seq![LlmActionView::PushError("OpenAI error: "@ + e@)],
                None => Seq::empty(),
            }) + (if self@.state.base.metrics_enabled {
                seq![LlmActionView::PushProcessingMetrics]
            } else {
                Seq::empty()
            }) + seq![
                LlmActionView::SendDownstream(
                    FrameView::LLMFullResponseEnd { skip_tts: self@.state.skip_tts },
                ),
            ],
            r@.len() > 0,
            llm_actions_of(r@).last() == LlmActionView::SendDownstream(
                FrameView::LLMFullResponseEnd { skip_tts: self@.state.skip_tts },
            ),
            error is Some ==> llm_actions_of(r@)[0] is PushError && error->0@.is_suffix_of(
                llm_actions_of(r@)[0]->PushError_0,
            ),
            error is None ==> forall|i: int|
                0 <= i < r@.len() ==> !(#[trigger] llm_actions_of(r@)[i] is PushError),
    {
        let mut actions: Vec<LlmAction> = Vec::new();
        let ghost report = match error {
            Some(e) => seq![LlmActionView::PushError("OpenAI error: "@ + e@)],
            None => Seq::empty(),
        };
        if let Some(e) = error {
            emit(&mut actions, LlmAction::PushError("OpenAI error: ".to_owned().concat(e)));
        }
        proof {
            assert(llm_actions_of(actions@) =~= report);
        }
        if self.state.base.metrics_enabled() {
            emit(&mut actions, LlmAction::PushProcessingMetrics);
        }
        emit(
            &mut actions,
            LlmAction::SendDownstream(Frame::LLMFullResponseEnd { skip_tts: self.state.skip_tts }),
        );
        proof {
            let end = LlmActionView::SendDownstream(
                FrameView::LLMFullResponseEnd { skip_tts: self@.state.skip_tts },
            );
            if self@.state.base.metrics_enabled {
                assert(llm_actions_of(actions@) =~= report + seq![
                    LlmActionView::PushProcessingMetrics,
                ] + seq![end]);
            } else {
                assert(llm_actions_of(actions@) =~= report + Seq::empty() + seq![end]);
            }
        }
        actions
    }

    /// The error for a reply whose status is no success.
    pub fn api_error(status: &str, text: &str) -> (r: String)
        ensures
            r@ == "OpenAI API error "@ + status@ + ": "@ + text@,
    {
        "OpenAI API error ".to_owned().concat(status).concat(": ").concat(text)
    }
}

// ---------------------------------------------------------------------------
// Laws
// ---------------------------------------------------------------------------

/// It does not matter how the pieces of tool calls arrive: those of two events
/// one after the other give what all of them give at once.
pub proof fn lemma_tool_call_pieces_accumulate(m: ToolCallsModel, a: Seq<Json>, b: Seq<Json>)
    ensures
        m.all_taken(a + b) == m.all_taken(a).all_taken(b),
    decreases b.len(),
{
    if b.len() == 0 {
        assert(a + b =~= a);
    } else {
        assert((a + b).drop_last() =~= a + b.drop_last());
        lemma_tool_call_pieces_accumulate(m, a, b.drop_last());
    }
}

/// Whether the end mark is among the complete lines in the buffer.
pub open spec fn meets_end_mark(s: StreamModel) -> bool
    decreases s.buffer.len() via meets_end_mark_decreases
{
    match first_at(s.buffer, '\n', 0) {
        None => false,
        Some(end) => {
            let t = StreamModel { buffer: s.buffer.skip(end + 1), ..s };
            trimmed(s.buffer.take(end)) == "data: [DONE]"@ || meets_end_mark(t)
        },
    }
}

#[via_fn]
proof fn meets_end_mark_decreases(s: StreamModel) {
    lemma_first_at(s.buffer, '\n', 0);
}

proof fn lemma_meets_end_mark_by_buffer(s: StreamModel, t: StreamModel)
    requires
        s.buffer == t.buffer,
    ensures
        meets_end_mark(s) == meets_end_mark(t),
    decreases s.buffer.len(),
{
    lemma_first_at(s.buffer, '\n', 0);
    if let Some(end) = first_at(s.buffer, '\n', 0) {
        lemma_meets_end_mark_by_buffer(
            StreamModel { buffer: s.buffer.skip(end + 1), ..s },
            StreamModel { buffer: t.buffer.skip(end + 1), ..t },
        );
    }
}

proof fn lemma_first_at_extended(s: Seq<char>, more: Seq<char>, c: char, from: int)
    requires
        0 <= from <= s.len(),
    ensures
        first_at(s, c, from) is Some ==> first_at(s + more, c, from) == first_at(s, c, from),
    decreases s.len() - from,
{
    if from < s.len() && s[from] != c {
        lemma_first_at_extended(s, more, c, from + 1);
    }
}

/// The stream with text behind its buffer.
pub open spec fn followed_by(s: StreamModel, text: Seq<char>) -> StreamModel {
    StreamModel { buffer: s.buffer + text, ..s }
}

proof fn lemma_lines_in_two_parts(s: StreamModel, b: Seq<char>)
    requires
        !meets_end_mark(s) || first_at(lines_taken(s).0.buffer + b, '\n', 0) is None,
    ensures
        ({
            let (mid, first) = lines_taken(s);
            let (post, second) = lines_taken(followed_by(mid, b));
            lines_taken(followed_by(s, b)) == (post, first + second)
        }),
    decreases s.buffer.len(),
{
    lemma_first_at(s.buffer, '\n', 0);
    lemma_first_at_extended(s.buffer, b, '\n', 0);
    let (mid, first) = lines_taken(s);
    let (post, second) = lines_taken(followed_by(mid, b));
    match first_at(s.buffer, '\n', 0) {
        None => {
            assert(first + second =~= second);
        },
        Some(end) => {
            let line = trimmed(s.buffer.take(end));
            let t = StreamModel { buffer: s.buffer.skip(end + 1), ..s };
            let whole = followed_by(s, b);
            assert(whole.buffer.take(end) =~= s.buffer.take(end));
            assert(whole.buffer.skip(end + 1) =~= t.buffer + b);
            if line == "data: [DONE]"@ {
                assert(first_at(t.buffer + b, '\n', 0) is None);
                assert(first + second =~= Seq::empty());
            } else {
                let (u, said) = t.line_taken(line);
                lemma_line_keeps_buffer(t, line);
                lemma_meets_end_mark_by_buffer(t, u);
                lemma_lines_in_two_parts(u, b);
                lemma_line_ignores_buffer(t, b, line);
                let rest = lines_taken(u).1;
                assert(said + (rest + second) =~= (said + rest) + second);
            }
        },
    }
}

proof fn lemma_line_ignores_buffer(s: StreamModel, b: Seq<char>, line: Seq<char>)
    ensures
        followed_by(s, b).line_taken(line) == (
            followed_by(s.line_taken(line).0, b),
            s.line_taken(line).1,
        ),
{
}

/// It does not matter how a reply is cut into chunks: taking two texts one
/// after the other is taking both at once. Left out are those where the first
/// brings the end mark and complete lines still follow it: at once, the lines
/// behind the mark would have to wait for the next text.
pub proof fn lemma_chunks_do_not_matter(s: StreamModel, a: Seq<char>, b: Seq<char>)
    requires
        !meets_end_mark(followed_by(s, a)) || first_at(
            s.text_taken(a).0.buffer + b,
            '\n',
            0,
        ) is None,
    ensures
        ({
            let (mid, first) = s.text_taken(a);
            let (post, second) = mid.text_taken(b);
            s.text_taken(a + b) == (post, first + second)
        }),
{
    lemma_lines_in_two_parts(followed_by(s, a), b);
    assert(s.buffer + (a + b) =~= (s.buffer + a) + b);
}

/// Extra settings win over all others, and nothing else of the request depends
/// on them.
pub proof fn lemma_extra_settings_win(
    settings: OpenAILLMSettingsView,
    context: Json,
    key: Seq<char>,
)
    ensures
        settings.extra.dom().contains(key) ==> request_body(settings, context).get(key) == Some(
            settings.extra[key],
        ),
        !settings.extra.dom().contains(key) ==> request_body(settings, context).get(key)
            == plain_request(settings, context).get(key),
{
}

} // verus!
