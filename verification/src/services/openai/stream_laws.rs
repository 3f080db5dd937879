//! What holds of streamed replies, requests and function calls as a whole.
use vstd::prelude::*;

use crate::frames::{FrameView, FunctionCallOf, LlmTokenUsage};
use crate::json::{json_of, parsed_json, Json, JsonNumber};
use crate::runs::{gathered, lemma_gathered_concat, lemma_gathered_few};
use crate::services::openai::llm::{
    asked_call, context_parts, lemma_tool_call_pieces_accumulate, lines_taken, plain_request,
    request_body, result_of, CallActionView, CallOutcome, CallRunModel, LlmActionView,
    LlmServiceModel, StreamModel, ToolCallView, ToolCallsModel,
};
use crate::services::openai::settings::OpenAILLMSettingsView;
use crate::text::{first_at, is_space, trimmed};

verus! {

/// The member of an object.
pub open spec fn member(j: Json, key: Seq<char>) -> Option<Json> {
    if let Json::Object(members) = j {
        if members.dom().contains(key) {
            Some(members[key])
        } else {
            None
        }
    } else {
        None
    }
}

/// The text of a member, empty where there is none.
pub open spec fn text_member(j: Json, key: Seq<char>) -> Seq<char> {
    if let Some(Json::Text(t)) = member(j, key) {
        t
    } else {
        Seq::empty()
    }
}

/// The elements of a member, none where it is no list.
pub open spec fn list_member(j: Json, key: Seq<char>) -> Seq<Json> {
    if let Some(Json::Array(list)) = member(j, key) {
        list
    } else {
        Seq::empty()
    }
}

/// The delta of the first choice of an event.
pub open spec fn first_delta(data: Json) -> Option<Json> {
    let choices = list_member(data, "choices"@);
    if choices.len() > 0 {
        member(choices[0], "delta"@)
    } else {
        None
    }
}

/// Whether an event brings pieces of tool calls.
pub open spec fn brings_tools(data: Json) -> bool {
    first_delta(data) matches Some(d) && member(d, "tool_calls"@) matches Some(Json::Array(_))
}

/// The content that an event brings.
pub open spec fn content_brought(data: Json) -> Seq<char> {
    if first_delta(data) is None || brings_tools(data) {
        Seq::empty()
    } else {
        text_member(first_delta(data)->0, "content"@)
    }
}

/// The pieces of tool calls that an event brings.
pub open spec fn pieces_brought(data: Json) -> Seq<Json> {
    if brings_tools(data) {
        list_member(first_delta(data)->0, "tool_calls"@)
    } else {
        Seq::empty()
    }
}

/// The text that an action sends downstream.
pub open spec fn text_sent(a: LlmActionView) -> Seq<char> {
    match a {
        LlmActionView::SendDownstream(FrameView::LLMText(f)) => f.text,
        _ => Seq::empty(),
    }
}

impl StreamModel {
    /// The stream after a run of events, and all that they call for.
    pub open spec fn events_taken(self, events: Seq<Json>) -> (StreamModel, Seq<LlmActionView>)
        decreases events.len(),
    {
        if events.len() == 0 {
            (self, Seq::empty())
        } else {
            let (s, actions) = self.events_taken(events.drop_last());
            let (s, more) = s.event_taken(events.last());
            (s, actions + more)
        }
    }
}

/// No content of a reply is lost, changed or made up: over any run of events the
/// texts sent downstream are, put one behind the other, the contents of the first
/// choices' deltas, every character kept. Deltas with pieces of tool calls bring
/// no text; their pieces are gathered, one behind the other.
pub proof fn lemma_content_is_kept(s: StreamModel, events: Seq<Json>)
    ensures
        gathered(s.events_taken(events).1, |a: LlmActionView| text_sent(a)) == gathered(
            events,
            |e: Json| content_brought(e),
        ),
        s.events_taken(events).0.tools == s.tools.all_taken(
            gathered(events, |e: Json| pieces_brought(e)),
        ),
        s.events_taken(events).0.buffer == s.buffer,
    decreases events.len(),
{
    if events.len() > 0 {
        let front = events.drop_last();
        lemma_content_is_kept(s, front);
        let (mid, actions) = s.events_taken(front);
        let data = events.last();
        let more = mid.event_taken(data).1;
        let f = |a: LlmActionView| text_sent(a);
        lemma_gathered_concat(actions, more, f);
        assert(more.len() <= 3);
        lemma_gathered_few(more, f);
        assert(gathered(more, f) =~= content_brought(data));
        lemma_tool_call_pieces_accumulate(
            s.tools,
            gathered(front, |e: Json| pieces_brought(e)),
            pieces_brought(data),
        );
        if !brings_tools(data) {
            assert(mid.tools.all_taken(pieces_brought(data)) == mid.tools);
        }
    }
}

/// Text of a stream is spoken or not as the stream was opened, and is meant for
/// the context.
pub proof fn lemma_content_is_marked(s: StreamModel, data: Json, i: int)
    requires
        0 <= i < s.event_taken(data).1.len(),
    ensures
        s.event_taken(data).1[i] matches LlmActionView::SendDownstream(f) ==> (f
            matches FrameView::LLMText(t) && t.skip_tts == s.skip_tts && t.append_to_context
            && !t.includes_inter_frame_spaces && t.text.len() > 0),
        s.event_taken(data).0.skip_tts == s.skip_tts,
        s.event_taken(data).0.metrics_enabled == s.metrics_enabled,
        s.event_taken(data).0.usage_enabled == s.usage_enabled,
{
}

/// Whether an event among these has a choice.
pub open spec fn has_choice(events: Seq<Json>) -> bool
    decreases events.len(),
{
    events.len() > 0 && (list_member(events.last(), "choices"@).len() > 0 || has_choice(
        events.drop_last(),
    ))
}

/// Whether an action reports the time to the first byte.
pub open spec fn first_byte(a: LlmActionView) -> Seq<()> {
    match a {
        LlmActionView::PushTtfb => seq![()],
        _ => Seq::empty(),
    }
}

/// The time to the first byte is reported once in a stream, if measurements are
/// wanted and a choice came, and never otherwise.
pub proof fn lemma_first_byte_is_reported_once(s: StreamModel, events: Seq<Json>)
    requires
        !s.ttfb_stopped,
    ensures
        gathered(s.events_taken(events).1, |a: LlmActionView| first_byte(a)).len()
            == if s.metrics_enabled && has_choice(events) {
            1nat
        } else {
            0
        },
        s.events_taken(events).0.ttfb_stopped == (s.metrics_enabled && has_choice(events)),
        s.events_taken(events).0.metrics_enabled == s.metrics_enabled,
    decreases events.len(),
{
    if events.len() > 0 {
        lemma_first_byte_is_reported_once(s, events.drop_last());
        let (mid, actions) = s.events_taken(events.drop_last());
        let more = mid.event_taken(events.last()).1;
        let f = |a: LlmActionView| first_byte(a);
        lemma_gathered_concat(actions, more, f);
        assert(more.len() <= 3);
        lemma_gathered_few(more, f);
    }
}

/// The number in a member, in 32 bits.
pub open spec fn number_member(j: Json, key: Seq<char>) -> Option<u32> {
    if let Some(Json::Number(JsonNumber::Unsigned(n))) = member(j, key) {
        Some((n % 4294967296) as u32)
    } else {
        None
    }
}

/// A number that is zero where there is none.
pub open spec fn or_zero(n: Option<u32>) -> u32 {
    match n {
        Some(x) => x,
        None => 0,
    }
}

/// The usage that an event reports, if it reports one with a total.
pub open spec fn usage_brought(data: Json) -> Seq<LlmTokenUsage> {
    if let Some(usage) = member(data, "usage"@) {
        if member(usage, "total_tokens"@) is Some {
            seq![
                LlmTokenUsage {
                    prompt_tokens: or_zero(number_member(usage, "prompt_tokens"@)),
                    completion_tokens: or_zero(number_member(usage, "completion_tokens"@)),
                    total_tokens: or_zero(number_member(usage, "total_tokens"@)),
                    cache_read_input_tokens: match member(usage, "prompt_tokens_details"@) {
                        Some(d) => number_member(d, "cached_tokens"@),
                        None => None,
                    },
                    cache_creation_input_tokens: None,
                    reasoning_tokens: match member(usage, "completion_tokens_details"@) {
                        Some(d) => number_member(d, "reasoning_tokens"@),
                        None => None,
                    },
                },
            ]
        } else {
            Seq::empty()
        }
    } else {
        Seq::empty()
    }
}

/// The usage that an action reports.
pub open spec fn usage_pushed(a: LlmActionView) -> Seq<LlmTokenUsage> {
    match a {
        LlmActionView::PushUsage(u) => seq![u],
        _ => Seq::empty(),
    }
}

/// Over any run of events every usage that they report is passed on with its
/// numbers, in order, if usage is wanted; otherwise none is.
pub proof fn lemma_usage_is_kept(s: StreamModel, events: Seq<Json>)
    ensures
        gathered(s.events_taken(events).1, |a: LlmActionView| usage_pushed(a))
            == if s.usage_enabled {
            gathered(events, |e: Json| usage_brought(e))
        } else {
            Seq::empty()
        },
        s.events_taken(events).0.usage_enabled == s.usage_enabled,
    decreases events.len(),
{
    if events.len() > 0 {
        lemma_usage_is_kept(s, events.drop_last());
        let (mid, actions) = s.events_taken(events.drop_last());
        let more = mid.event_taken(events.last()).1;
        let f = |a: LlmActionView| usage_pushed(a);
        lemma_gathered_concat(actions, more, f);
        assert(more.len() <= 3);
        lemma_gathered_few(more, f);
        assert(gathered(more, f) =~= if s.usage_enabled {
            usage_brought(events.last())
        } else {
            Seq::empty()
        });
    }
}

/// The index that a piece names, zero where it names none.
pub open spec fn index_named(piece: Json) -> int {
    match member(piece, "index"@) {
        Some(Json::Number(JsonNumber::Unsigned(n))) => if n <= i64::MAX {
            n as int
        } else {
            0
        },
        Some(Json::Number(JsonNumber::Negative(n))) => n as int,
        _ => 0,
    }
}

/// The part of a function's name that a piece brings.
pub open spec fn name_brought(piece: Json) -> Seq<char> {
    match member(piece, "function"@) {
        Some(f) => text_member(f, "name"@),
        None => Seq::empty(),
    }
}

/// The part of a call's arguments that a piece brings.
pub open spec fn arguments_brought(piece: Json) -> Seq<char> {
    match member(piece, "function"@) {
        Some(f) => text_member(f, "arguments"@),
        None => Seq::empty(),
    }
}

/// The id that pieces leave a call with, where it had another before.
pub open spec fn id_left(before: Seq<char>, pieces: Seq<Json>) -> Seq<char>
    decreases pieces.len(),
{
    if pieces.len() == 0 {
        before
    } else if let Some(Json::Text(t)) = member(pieces.last(), "id"@) {
        t
    } else {
        id_left(before, pieces.drop_last())
    }
}

/// Pieces with one index make one call: it has their names and arguments, each
/// put one behind the other, and the last id among them. They go on with the call
/// under way where that has their index, or none is under way; else that call is
/// complete as it is and theirs is a new one.
pub proof fn lemma_pieces_make_a_call(m: ToolCallsModel, pieces: Seq<Json>, index: int)
    requires
        index >= 0,
        pieces.len() > 0,
        forall|i: int| 0 <= i < pieces.len() ==> index_named(#[trigger] pieces[i]) == index,
    ensures
        ({
            let after = m.all_taken(pieces);
            let goes_on = m.current_index < 0 || m.current_index == index;
            let names = gathered(pieces, |p: Json| name_brought(p));
            let arguments = gathered(pieces, |p: Json| arguments_brought(p));
            &&& after.current_index == index
            &&& goes_on ==> {
                &&& after.complete == m.complete
                &&& after.current.name == m.current.name + names
                &&& after.current.arguments == m.current.arguments + arguments
                &&& after.current.id == id_left(m.current.id, pieces)
            }
            &&& !goes_on ==> {
                &&& after.complete == m.complete.push(m.current)
                &&& after.current.name == names
                &&& after.current.arguments == arguments
                &&& after.current.id == id_left(Seq::empty(), pieces)
            }
        }),
    decreases pieces.len(),
{
    let front = pieces.drop_last();
    let last = pieces.last();
    assert(index_named(pieces[pieces.len() - 1]) == index);
    let fn_name = |p: Json| name_brought(p);
    let fn_args = |p: Json| arguments_brought(p);
    if front.len() == 0 {
        reveal_with_fuel(ToolCallsModel::all_taken, 2);
        reveal_with_fuel(id_left, 2);
        lemma_gathered_few(pieces, fn_name);
        lemma_gathered_few(pieces, fn_args);
        assert(front =~= Seq::empty());
        assert(m.all_taken(pieces) == m.taken(last));
        let e = Seq::<char>::empty();
        assert(e + name_brought(last) =~= name_brought(last));
        assert(e + arguments_brought(last) =~= arguments_brought(last));
    } else {
        assert forall|i: int| 0 <= i < front.len() implies index_named(#[trigger] front[i])
            == index by {
            assert(index_named(pieces[i]) == index);
        }
        lemma_pieces_make_a_call(m, front, index);
        let names = gathered(front, fn_name);
        let arguments = gathered(front, fn_args);
        assert(m.current.name + names + name_brought(last) =~= m.current.name + (names
            + name_brought(last)));
        assert(m.current.arguments + arguments + arguments_brought(last) =~= m.current.arguments
            + (arguments + arguments_brought(last)));
    }
}

/// At the end of a stream every call that is complete counts, and the call under
/// way if it has a name.
pub proof fn lemma_named_calls_count(m: ToolCallsModel)
    requires
        m.current_index >= 0,
    ensures
        m.finished().take(m.complete.len() as int) == m.complete,
        m.current.name.len() > 0 ==> m.finished().len() == m.complete.len() + 1
            && m.finished().last() == m.current,
        m.current.name.len() == 0 ==> m.finished().len() == m.complete.len(),
        ToolCallsModel::none().finished().len() == 0,
{
    assert(m.finished().take(m.complete.len() as int) =~= m.complete);
}

proof fn lemma_line_feed_at_the_end(s: Seq<char>, from: int)
    requires
        0 <= from <= s.len(),
        forall|i: int| 0 <= i < s.len() ==> #[trigger] s[i] != '\n',
    ensures
        first_at(s + seq!['\n'], '\n', from) == Some(s.len() as int),
    decreases s.len() - from,
{
    if from < s.len() {
        assert((s + seq!['\n'])[from] == s[from]);
        lemma_line_feed_at_the_end(s, from + 1);
    }
}

/// A line of a reply is taken once its line feed is there: with no other line
/// before it, what it calls for is what the trimmed line calls for, and nothing
/// waits after it. The line that marks the end calls for nothing.
pub proof fn lemma_line_is_taken(s: StreamModel, line: Seq<char>)
    requires
        forall|i: int| 0 <= i < s.buffer.len() ==> #[trigger] s.buffer[i] != '\n',
        forall|i: int| 0 <= i < line.len() ==> #[trigger] line[i] != '\n',
    ensures
        ({
            let blank = StreamModel { buffer: Seq::empty(), ..s };
            let whole = trimmed(s.buffer + line);
            s.text_taken(line + seq!['\n']) == if whole == "data: [DONE]"@ {
                (blank, Seq::<LlmActionView>::empty())
            } else {
                blank.line_taken(whole)
            }
        }),
        s.text_taken(line) == (
            StreamModel { buffer: s.buffer + line, ..s },
            Seq::<LlmActionView>::empty(),
        ),
{
    let whole = s.buffer + line;
    lemma_line_feed_at_the_end(whole, 0);
    let t = StreamModel { buffer: s.buffer + (line + seq!['\n']), ..s };
    assert(t.buffer =~= whole + seq!['\n']);
    assert(t.buffer.take(whole.len() as int) =~= whole);
    assert(t.buffer.skip(whole.len() as int + 1) =~= Seq::empty());
    let blank = StreamModel { buffer: Seq::empty(), ..s };
    assert(first_at(Seq::<char>::empty(), '\n', 0) is None);
    let after = blank.line_taken(trimmed(whole)).0;
    assert(after.buffer =~= Seq::empty());
    assert(lines_taken(after) == (after, Seq::<LlmActionView>::empty()));
    assert(blank.line_taken(trimmed(whole)).1 + Seq::<LlmActionView>::empty()
        =~= blank.line_taken(trimmed(whole)).1);
    lemma_no_line_feed(whole, 0);
}

proof fn lemma_no_line_feed(s: Seq<char>, from: int)
    requires
        0 <= from <= s.len(),
        forall|i: int| 0 <= i < s.len() ==> #[trigger] s[i] != '\n',
    ensures
        first_at(s, '\n', from) is None,
    decreases s.len() - from,
{
    if from < s.len() {
        lemma_no_line_feed(s, from + 1);
    }
}

/// A line with `data: ` and a document is the event of that document. It may have
/// whitespace at its end, as before a line feed. The end mark is no document.
pub proof fn lemma_data_lines_bring_events(
    s: StreamModel,
    payload: Seq<char>,
    space: Seq<char>,
    data: Json,
)
    requires
        s.buffer.len() == 0,
        payload.len() > 0,
        !is_space(payload.last()),
        payload != "[DONE]"@,
        parsed_json(payload) == Some(data),
        forall|i: int| 0 <= i < payload.len() ==> #[trigger] payload[i] != '\n',
        forall|i: int|
            0 <= i < space.len() ==> #[trigger] space[i] != '\n' && is_space(space[i]),
    ensures
        s.text_taken("data: "@ + payload + space + seq!['\n']) == s.event_taken(data),
{
    reveal_strlit("data: ");
    reveal_strlit("data: [DONE]");
    reveal_strlit("[DONE]");
    let line = "data: "@ + payload + space;
    assert(s.buffer =~= Seq::empty());
    assert(s.buffer + line =~= line);
    lemma_space_is_cut("data: "@ + payload, space);
    assert(trimmed(line) == "data: "@ + payload);
    lemma_line_is_taken(s, line);
    assert(("data: "@ + payload).skip(6) =~= payload);
    assert("data: [DONE]"@.skip(6) =~= "[DONE]"@);
    assert("data: "@.is_prefix_of("data: "@ + payload));
    assert(StreamModel { buffer: Seq::empty(), ..s } == s);
}

/// Whitespace at the end of a text that has none at its ends is cut off.
proof fn lemma_space_is_cut(s: Seq<char>, space: Seq<char>)
    requires
        s.len() > 0,
        !is_space(s[0]),
        !is_space(s.last()),
        forall|i: int| 0 <= i < space.len() ==> is_space(#[trigger] space[i]),
    ensures
        trimmed(s + space) == s,
    decreases space.len(),
{
    if space.len() == 0 {
        assert(s + space =~= s);
    } else {
        assert(is_space(space[space.len() - 1]));
        assert((s + space).drop_last() =~= s + space.drop_last());
        lemma_space_is_cut(s, space.drop_last());
    }
}

/// A line that does not begin with `data: ` calls for nothing, and neither does
/// one whose data is no document.
pub proof fn lemma_other_lines_are_passed_over(s: StreamModel, line: Seq<char>)
    requires
        "data: "@.is_prefix_of(line) ==> parsed_json(line.skip(6)) is None,
    ensures
        s.line_taken(line) == (s, Seq::<LlmActionView>::empty()),
{
    reveal_strlit("data: ");
}

/// The length and the first three letters of a key. No two keys of a request
/// agree in them.
spec fn head(key: Seq<char>) -> (nat, char, char, char) {
    (key.len(), key[0], key[1], key[2])
}

proof fn lemma_request_keys()
    ensures
        head("stream"@) == (6nat, 's', 't', 'r'),
        head("stream_options"@) == (14nat, 's', 't', 'r'),
        head("model"@) == (5nat, 'm', 'o', 'd'),
        head("messages"@) == (8nat, 'm', 'e', 's'),
        head("tools"@) == (5nat, 't', 'o', 'o'),
        head("tool_choice"@) == (11nat, 't', 'o', 'o'),
        head("temperature"@) == (11nat, 't', 'e', 'm'),
        head("max_tokens"@) == (10nat, 'm', 'a', 'x'),
        head("max_completion_tokens"@) == (21nat, 'm', 'a', 'x'),
        head("top_p"@) == (5nat, 't', 'o', 'p'),
        head("frequency_penalty"@) == (17nat, 'f', 'r', 'e'),
        head("presence_penalty"@) == (16nat, 'p', 'r', 'e'),
        head("seed"@) == (4nat, 's', 'e', 'e'),
{
    reveal_strlit("stream");
    reveal_strlit("stream_options");
    reveal_strlit("model");
    reveal_strlit("messages");
    reveal_strlit("tools");
    reveal_strlit("tool_choice");
    reveal_strlit("temperature");
    reveal_strlit("max_tokens");
    reveal_strlit("max_completion_tokens");
    reveal_strlit("top_p");
    reveal_strlit("frequency_penalty");
    reveal_strlit("presence_penalty");
    reveal_strlit("seed");
}

/// A member that holds a text exactly where there is one.
pub open spec fn holds_text(j: Json, key: Seq<char>, text: Option<Seq<char>>) -> bool {
    match text {
        Some(t) => member(j, key) == Some(Json::Text(t)),
        None => member(j, key) is None,
    }
}

/// A member that holds an integer exactly where there is one.
pub open spec fn holds_integer(j: Json, key: Seq<char>, n: Option<u32>) -> bool {
    match n {
        Some(x) => member(j, key) == Some(Json::Number(JsonNumber::Unsigned(x as u64))),
        None => member(j, key) is None,
    }
}

/// A member that holds a float exactly where there is one.
pub open spec fn holds_float(j: Json, key: Seq<char>, bits: Option<u64>) -> bool {
    match bits {
        Some(b) => member(j, key) == Some(Json::Number(JsonNumber::Float(b))),
        None => member(j, key) is None,
    }
}

/// A request, without extra members, streams its reply with the usage, and says
/// each setting under its name: those that are not set it leaves out.
pub proof fn lemma_request_says_the_settings(settings: OpenAILLMSettingsView, context: Json)
    requires
        settings.extra.dom() =~= Set::empty(),
    ensures
        ({
            let body = request_body(settings, context);
            &&& member(body, "stream"@) == Some(Json::Bool(true))
            &&& member(body, "stream_options"@) matches Some(o) && member(o, "include_usage"@)
                == Some(Json::Bool(true))
            &&& holds_text(body, "model"@, settings.base.model)
            &&& holds_float(body, "temperature"@, settings.base.temperature)
            &&& holds_integer(body, "max_tokens"@, settings.base.max_tokens)
            &&& holds_integer(body, "max_completion_tokens"@, settings.max_completion_tokens)
            &&& holds_float(body, "top_p"@, settings.base.top_p)
            &&& holds_float(body, "frequency_penalty"@, settings.base.frequency_penalty)
            &&& holds_float(body, "presence_penalty"@, settings.base.presence_penalty)
            &&& holds_integer(body, "seed"@, settings.base.seed)
        }),
{
    lemma_request_keys();
    assert(request_body(settings, context) == plain_request(settings, context)) by {
        let plain = plain_request(settings, context)->Object_0;
        assert(plain.union_prefer_right(settings.extra) =~= plain);
    }
}

/// A request, without extra members, has the messages of the context in their
/// order, behind a system message where there is an instruction; the tools of the
/// context if there are any, and its choice of tools.
pub proof fn lemma_request_says_the_context(settings: OpenAILLMSettingsView, context: Json)
    requires
        settings.extra.dom() =~= Set::empty(),
    ensures
        ({
            let body = request_body(settings, context);
            let said = list_member(body, "messages"@);
            let heard = list_member(context, "messages"@);
            &&& member(body, "messages"@) is Some == member(context, "messages"@) is Some
            &&& member(context, "messages"@) is Some ==> match settings.base.system_instruction {
                Some(text) => {
                    &&& said.len() == heard.len() + 1
                    &&& member(said[0], "role"@) == Some(Json::Text("system"@))
                    &&& member(said[0], "content"@) == Some(Json::Text(text))
                    &&& said.skip(1) == heard
                },
                None => said == heard,
            }
            &&& list_member(context, "tools"@).len() > 0 ==> member(body, "tools"@) == member(
                context,
                "tools"@,
            )
            &&& list_member(context, "tools"@).len() == 0 ==> member(body, "tools"@) is None
            &&& member(body, "tool_choice"@) == member(context, "tool_choice"@)
        }),
{
    lemma_request_keys();
    reveal_strlit("role");
    reveal_strlit("content");
    let body = request_body(settings, context);
    assert(body == plain_request(settings, context)) by {
        let plain = plain_request(settings, context)->Object_0;
        assert(plain.union_prefer_right(settings.extra) =~= plain);
    }
    assert("role"@.len() != "content"@.len());
    let said = list_member(body, "messages"@);
    let heard = list_member(context, "messages"@);
    if member(context, "messages"@) is Some {
        if settings.base.system_instruction is Some {
            assert(said.skip(1) =~= heard);
        } else {
            assert(said =~= heard);
        }
    }
}

/// A context is answered by a start frame first and one request last, for the
/// service's address; measurements begin between them where they are wanted.
pub proof fn lemma_context_is_requested(m: LlmServiceModel, context: Json)
    ensures
        ({
            let actions = m.context_begun(context);
            &&& actions.len() == if m.state.base.metrics_enabled {
                4nat
            } else {
                2
            }
            &&& actions[0] == LlmActionView::SendDownstream(
                FrameView::LLMFullResponseStart { skip_tts: m.state.skip_tts },
            )
            &&& actions.last() matches LlmActionView::Request { url, body } && url == m.base_url
                + "/chat/completions"@ && body == request_body(m.settings, context)
            &&& m.state.base.metrics_enabled ==> actions[1] == LlmActionView::StartTtfb
                && actions[2] == LlmActionView::StartProcessing
        }),
{
}

/// A step in the life of a function call.
pub enum CallStep {
    LookedUp { name: Seq<char> },
    Announced { id: Seq<char>, name: Seq<char>, arguments: Json, cancellable: bool },
    Ran { id: Seq<char>, name: Seq<char>, arguments: Json },
    Told { id: Seq<char>, name: Seq<char>, arguments: Json, result: Json },
}

/// The steps that an action takes.
pub open spec fn steps_taken(a: CallActionView) -> Seq<CallStep> {
    match a {
        CallActionView::LookUp(name) => seq![CallStep::LookedUp { name }],
        CallActionView::Broadcast(FrameView::FunctionCallInProgress(f)) => seq![
            CallStep::Announced {
                id: f.tool_call_id,
                name: f.function_name,
                arguments: f.arguments,
                cancellable: f.cancel_on_interruption,
            },
        ],
        CallActionView::Run(c) => seq![
            CallStep::Ran { id: c.tool_call_id, name: c.function_name, arguments: c.arguments },
        ],
        CallActionView::Broadcast(FrameView::FunctionCallResult(f)) => seq![
            CallStep::Told {
                id: f.tool_call_id,
                name: f.function_name,
                arguments: f.arguments,
                result: f.result,
            },
        ],
        _ => Seq::empty(),
    }
}

/// The life of one call: looked up, announced, run and told, with one and the
/// same id, name and arguments.
pub open spec fn call_life(
    call: FunctionCallOf<Seq<char>, Json>,
    registered: Option<bool>,
    outcome: CallOutcome,
) -> Seq<CallStep> {
    seq![
        CallStep::LookedUp { name: call.function_name },
        CallStep::Announced {
            id: call.tool_call_id,
            name: call.function_name,
            arguments: call.arguments,
            cancellable: registered == Some(true),
        },
        CallStep::Ran {
            id: call.tool_call_id,
            name: call.function_name,
            arguments: call.arguments,
        },
        CallStep::Told {
            id: call.tool_call_id,
            name: call.function_name,
            arguments: call.arguments,
            result: match outcome {
                CallOutcome::Returned(v) => json_of(v),
                CallOutcome::TimedOut => Json::Null,
                CallOutcome::NoHandler => Json::Object(
                    map!["error"@ => Json::Text("No handler for "@ + call.function_name)],
                ),
            },
        },
    ]
}

/// The lives of the first calls of a list, one behind the other.
pub open spec fn call_lives(
    calls: Seq<FunctionCallOf<Seq<char>, Json>>,
    reports: Seq<(Option<bool>, CallOutcome)>,
) -> Seq<CallStep>
    decreases reports.len(),
{
    if reports.len() == 0 {
        Seq::empty()
    } else {
        call_lives(calls, reports.drop_last()) + call_life(
            calls[reports.len() - 1],
            reports.last().0,
            reports.last().1,
        )
    }
}

/// A run that is reported on to its end takes every call through its whole life,
/// in order, with the result that was reported for it, and nothing more.
pub proof fn lemma_every_call_is_told(
    m: CallRunModel,
    reports: Seq<(Option<bool>, CallOutcome)>,
)
    requires
        m.position == 0,
        reports.len() <= m.calls.len(),
    ensures
        gathered(m.run(reports).1, |a: CallActionView| steps_taken(a)) == call_lives(
            m.calls,
            reports,
        ) + if reports.len() < m.calls.len() {
            seq![CallStep::LookedUp { name: m.calls[reports.len() as int].function_name }]
        } else {
            Seq::empty()
        },
        m.run(reports).0 == (CallRunModel { position: reports.len() as int, ..m }),
    decreases reports.len(),
{
    let f = |a: CallActionView| steps_taken(a);
    let next = |n: nat|
        if n < m.calls.len() {
            seq![CallStep::LookedUp { name: m.calls[n as int].function_name }]
        } else {
            Seq::empty()
        };
    if reports.len() == 0 {
        lemma_gathered_few(m.begun(), f);
        assert(gathered(m.run(reports).1, f) =~= call_lives(m.calls, reports) + next(0));
    } else {
        let front = reports.drop_last();
        lemma_every_call_is_told(m, front);
        let (mid, actions) = m.run(front);
        let (registered, outcome) = reports.last();
        let call = m.calls[front.len() as int];
        let (post, more) = mid.done(outcome);
        lemma_gathered_few(mid.found(registered), f);
        lemma_gathered_few(more, f);
        lemma_gathered_concat(actions, mid.found(registered), f);
        lemma_gathered_concat(actions + mid.found(registered), more, f);
        let result = result_of(call.function_name, outcome);
        if outcome is NoHandler {
            assert(result->Object_0 =~= map!["error"@ => Json::Text(
                "No handler for "@ + call.function_name,
            )]);
        }
        assert(gathered(m.run(reports).1, f) =~= call_lives(m.calls, reports) + next(
            reports.len(),
        ));
    }
}

/// The calls of a run are those of the reply, in order, under their names and
/// ids, with the documents that their arguments say; what is no document stands
/// for no arguments. Handlers see the messages and tools of the context.
pub proof fn lemma_run_has_the_calls_of_the_reply(
    calls: Seq<ToolCallView>,
    context: Json,
    i: int,
)
    requires
        0 <= i < calls.len(),
    ensures
        ({
            let m = CallRunModel::fresh(calls, context);
            &&& m.calls.len() == calls.len()
            &&& m.position == 0
            &&& m.calls[i].function_name == calls[i].name
            &&& m.calls[i].tool_call_id == calls[i].id
            &&& parsed_json(calls[i].arguments) matches Some(j) ==> m.calls[i].arguments == j
            &&& parsed_json(calls[i].arguments) is None ==> m.calls[i].arguments == Json::Object(
                Map::empty(),
            )
            &&& m.context.messages == list_member(context, "messages"@)
            &&& m.context.tools == member(context, "tools"@)
            &&& m.context.tool_choice == member(context, "tool_choice"@)
        }),
{
    let m = CallRunModel::fresh(calls, context);
    assert(m.calls[i] == asked_call(calls[i]));
    assert(m.context == context_parts(context));
}

} // verus!
