//! Protocol types for the OpenAI Realtime API.
//!
//! Client events are written as documents and sent to the service. Server
//! events are read from documents: first the `type`, then the members that
//! events of the type have.
use std::collections::hash_map::RandomState;

use serde_json::Value;
use vstd::prelude::*;
use vstd::string::*;

use crate::frames::{clone_text_opt, text_opt};
use crate::json::{
    empty_object, json_of, json_seq, value_array, value_as_array, value_as_str, value_as_u64,
    value_get, value_is_null, value_object, value_set, value_u64, Json, JsonNumber,
};
use crate::services::openai::settings::{ResponseProperties, SessionProperties};
use crate::services::openai::wire::{
    get_member, get_text, get_text_opt, get_text_or_empty, get_u32_opt, get_u32_or_zero,
    holds_structure, is_structure, member, read_text, read_text_opt, read_text_or_empty,
    read_u32_opt, read_u32_or_zero, ref_json, set_str, set_text, text_json,
};
use crate::text::{
    hex_digit, hex_numeral, hex_range, hexadecimal, lemma_hex_numeral_width,
    lemma_hex_numerals_differ, text_eq,
};

verus! {

// ---------------------------------------------------------------------------
// Identifiers
// ---------------------------------------------------------------------------

/// Calls `RandomState::new`. The keys of such a state are random, so nothing is
/// said of it.
#[verifier::external_body]
fn random_state() -> RandomState {
    RandomState::new()
}

/// Calls `BuildHasher::hash_one` on a `RandomState`. The hash depends on the
/// state's random keys, so nothing is said of it.
#[verifier::external_body]
fn random_hash(state: &RandomState, n: u64) -> u64 {
    std::hash::BuildHasher::hash_one(state, n)
}

/// A number put together from its low and its high half.
pub fn joined_u128(low: u64, high: u64) -> (r: u128)
    ensures
        r == low + high * 0x1_0000_0000_0000_0000,
{
    low as u128 + high as u128 * 0x1_0000_0000_0000_0000
}

/// A pseudo-random number.
fn rand_u128() -> u128 {
    let state = random_state();
    joined_u128(random_hash(&state, 0), random_hash(&state, 1))
}

/// Whether a text is an item id: 32 hexadecimal digits.
pub open spec fn is_item_id(id: Seq<char>) -> bool {
    exists|n: u128| id == #[trigger] hex_numeral(n as nat, 32)
}

/// Whether a text is an event id: an item id behind `evt_`.
pub open spec fn is_event_id(id: Seq<char>) -> bool {
    exists|n: u128| id == "evt_"@ + #[trigger] hex_numeral(n as nat, 32)
}

/// The event id with a number.
pub fn event_id(n: u128) -> (r: String)
    ensures
        r@ == "evt_"@ + hex_numeral(n as nat, 32),
{
    "evt_".to_owned().concat(hexadecimal(n, 32).as_str())
}

/// Different numbers make different ids.
pub proof fn lemma_ids_differ(a: u128, b: u128)
    requires
        a != b,
    ensures
        hex_numeral(a as nat, 32) != hex_numeral(b as nat, 32),
        "evt_"@ + hex_numeral(a as nat, 32) != "evt_"@ + hex_numeral(b as nat, 32),
{
    let prefix = "evt_"@;
    assert((prefix + hex_numeral(a as nat, 32)).skip(prefix.len() as int) =~= hex_numeral(
        a as nat,
        32,
    ));
    assert((prefix + hex_numeral(b as nat, 32)).skip(prefix.len() as int) =~= hex_numeral(
        b as nat,
        32,
    ));
    reveal_with_fuel(hex_range, 33);
    assert(hex_range(32) == 0x1_0000_0000_0000_0000_0000_0000_0000_0000);
    lemma_hex_numerals_differ(a as nat, b as nat, 32);
}

proof fn lemma_hex_digits(n: nat, width: nat)
    ensures
        forall|i: int|
            0 <= i < hex_numeral(n, width).len() ==> is_hex(#[trigger] hex_numeral(n, width)[i]),
    decreases width,
{
    if width > 0 {
        let front = hex_numeral(n / 16, (width - 1) as nat);
        lemma_hex_digits(n / 16, (width - 1) as nat);
        assert(is_hex(hex_digit(n % 16)));
        assert forall|i: int| 0 <= i < hex_numeral(n, width).len() implies is_hex(
            #[trigger] hex_numeral(n, width)[i],
        ) by {
            if i < front.len() {
                assert(hex_numeral(n, width)[i] == front[i]);
            }
        }
    }
}

/// Whether a character is a digit or one of the letters from `a` to `f`.
pub open spec fn is_hex(c: char) -> bool {
    '0' <= c <= '9' || 'a' <= c <= 'f'
}

/// An item id has 32 characters, all of them hexadecimal digits in lower case.
pub proof fn lemma_item_id_form(id: Seq<char>)
    requires
        is_item_id(id),
    ensures
        id.len() == 32,
        forall|i: int| 0 <= i < id.len() ==> is_hex(#[trigger] id[i]),
{
    let n = choose|n: u128| id == #[trigger] hex_numeral(n as nat, 32);
    lemma_hex_numeral_width(n as nat, 32);
    lemma_hex_digits(n as nat, 32);
}

/// Generate an event id.
pub fn make_event_id() -> (r: String)
    ensures
        is_event_id(r@),
{
    event_id(rand_u128())
}

/// Generate an item id.
pub fn make_item_id() -> (r: String)
    ensures
        is_item_id(r@),
{
    hexadecimal(rand_u128(), 32)
}

/// The id of an item that comes without one.
pub fn default_item_id() -> (r: String)
    ensures
        is_item_id(r@),
{
    make_item_id()
}

// ---------------------------------------------------------------------------
// Client events
// ---------------------------------------------------------------------------

/// The document that all client events begin with.
pub open spec fn event_json(event_type: Seq<char>, event_id: Seq<char>) -> Json {
    empty_object().with("type"@, Json::Text(event_type)).with("event_id"@, Json::Text(event_id))
}

fn event_value(event_type: &str, event_id: &String) -> (r: Value)
    ensures
        json_of(r) == event_json(event_type@, event_id@),
{
    let mut v = value_object();
    set_str(&mut v, "type", event_type);
    set_str(&mut v, "event_id", event_id.as_str());
    v
}

/// Changes the configuration of the session.
#[derive(Debug)]
pub struct SessionUpdateEvent {
    pub event_type: &'static str,
    pub event_id: String,
    pub session: SessionProperties,
}

impl SessionUpdateEvent {
    pub fn new(session: SessionProperties) -> (r: Self)
        ensures
            r.event_type@ == "session.update"@,
            is_event_id(r.event_id@),
            r.session == session,
    {
        SessionUpdateEvent {
            event_type: "session.update",
            event_id: make_event_id(),
            session,
        }
    }

    /// The document that is written.
    pub open spec fn json(self) -> Json {
        event_json(self.event_type@, self.event_id@).with("session"@, self.session@.json())
    }

    /// Writes it as a document.
    pub fn to_value(&self) -> (r: Value)
        ensures
            json_of(r) == self.json(),
    {
        let mut v = event_value(self.event_type, &self.event_id);
        value_set(&mut v, "session", self.session.to_value());
        v
    }
}

/// Appends audio, in base64, to the input.
#[derive(Debug)]
pub struct InputAudioBufferAppendEvent {
    pub event_type: &'static str,
    pub event_id: String,
    pub audio: String,
}

impl InputAudioBufferAppendEvent {
    pub fn new(audio: String) -> (r: Self)
        ensures
            r.event_type@ == "input_audio_buffer.append"@,
            is_event_id(r.event_id@),
            r.audio == audio,
    {
        InputAudioBufferAppendEvent {
            event_type: "input_audio_buffer.append",
            event_id: make_event_id(),
            audio,
        }
    }

    /// The document that is written.
    pub open spec fn json(self) -> Json {
        event_json(self.event_type@, self.event_id@).with("audio"@, Json::Text(self.audio@))
    }

    /// Writes it as a document.
    pub fn to_value(&self) -> (r: Value)
        ensures
            json_of(r) == self.json(),
    {
        let mut v = event_value(self.event_type, &self.event_id);
        set_str(&mut v, "audio", self.audio.as_str());
        v
    }
}

/// Commits the audio input.
#[derive(Debug)]
pub struct InputAudioBufferCommitEvent {
    pub event_type: &'static str,
    pub event_id: String,
}

impl Default for InputAudioBufferCommitEvent {
    fn default() -> (r: Self)
        ensures
            r.event_type@ == "input_audio_buffer.commit"@,
            is_event_id(r.event_id@),
    {
        Self::new()
    }
}

impl InputAudioBufferCommitEvent {
    pub fn new() -> (r: Self)
        ensures
            r.event_type@ == "input_audio_buffer.commit"@,
            is_event_id(r.event_id@),
    {
        InputAudioBufferCommitEvent {
            event_type: "input_audio_buffer.commit",
            event_id: make_event_id(),
        }
    }

    /// The document that is written.
    pub open spec fn json(self) -> Json {
        event_json(self.event_type@, self.event_id@)
    }

    /// Writes it as a document.
    pub fn to_value(&self) -> (r: Value)
        ensures
            json_of(r) == self.json(),
    {
        event_value(self.event_type, &self.event_id)
    }
}

/// Clears the audio input.
#[derive(Debug)]
pub struct InputAudioBufferClearEvent {
    pub event_type: &'static str,
    pub event_id: String,
}

impl Default for InputAudioBufferClearEvent {
    fn default() -> (r: Self)
        ensures
            r.event_type@ == "input_audio_buffer.clear"@,
            is_event_id(r.event_id@),
    {
        Self::new()
    }
}

impl InputAudioBufferClearEvent {
    pub fn new() -> (r: Self)
        ensures
            r.event_type@ == "input_audio_buffer.clear"@,
            is_event_id(r.event_id@),
    {
        InputAudioBufferClearEvent {
            event_type: "input_audio_buffer.clear",
            event_id: make_event_id(),
        }
    }

    /// The document that is written.
    pub open spec fn json(self) -> Json {
        event_json(self.event_type@, self.event_id@)
    }

    /// Writes it as a document.
    pub fn to_value(&self) -> (r: Value)
        ensures
            json_of(r) == self.json(),
    {
        event_value(self.event_type, &self.event_id)
    }
}

/// Asks for a response.
#[derive(Debug)]
pub struct ResponseCreateEvent {
    pub event_type: &'static str,
    pub event_id: String,
    pub response: Option<ResponseProperties>,
}

impl ResponseCreateEvent {
    pub fn new(response: Option<ResponseProperties>) -> (r: Self)
        ensures
            r.event_type@ == "response.create"@,
            is_event_id(r.event_id@),
            r.response == response,
    {
        ResponseCreateEvent {
            event_type: "response.create",
            event_id: make_event_id(),
            response,
        }
    }

    /// The document that is written.
    pub open spec fn json(self) -> Json {
        event_json(self.event_type@, self.event_id@).with_some(
            "response"@,
            match self.response {
                Some(p) => Some(p@.json()),
                None => None,
            },
        )
    }

    /// Writes it as a document.
    pub fn to_value(&self) -> (r: Value)
        ensures
            json_of(r) == self.json(),
    {
        let mut v = event_value(self.event_type, &self.event_id);
        if let Some(p) = &self.response {
            value_set(&mut v, "response", p.to_value());
        }
        v
    }
}

/// Cancels the response.
#[derive(Debug)]
pub struct ResponseCancelEvent {
    pub event_type: &'static str,
    pub event_id: String,
}

impl Default for ResponseCancelEvent {
    fn default() -> (r: Self)
        ensures
            r.event_type@ == "response.cancel"@,
            is_event_id(r.event_id@),
    {
        Self::new()
    }
}

impl ResponseCancelEvent {
    pub fn new() -> (r: Self)
        ensures
            r.event_type@ == "response.cancel"@,
            is_event_id(r.event_id@),
    {
        ResponseCancelEvent {
            event_type: "response.cancel",
            event_id: make_event_id(),
        }
    }

    /// The document that is written.
    pub open spec fn json(self) -> Json {
        event_json(self.event_type@, self.event_id@)
    }

    /// Writes it as a document.
    pub fn to_value(&self) -> (r: Value)
        ensures
            json_of(r) == self.json(),
    {
        event_value(self.event_type, &self.event_id)
    }
}

/// A part of the content of an item.
#[derive(Debug)]
pub struct ItemContent {
    pub content_type: String,
    pub text: Option<String>,
    pub audio: Option<String>,
    pub transcript: Option<String>,
    pub image_url: Option<String>,
    pub detail: Option<String>,
}

/// What an [`ItemContent`] says.
pub struct ItemContentView {
    pub content_type: Seq<char>,
    pub text: Option<Seq<char>>,
    pub audio: Option<Seq<char>>,
    pub transcript: Option<Seq<char>>,
    pub image_url: Option<Seq<char>>,
    pub detail: Option<Seq<char>>,
}

impl View for ItemContent {
    type V = ItemContentView;

    open spec fn view(&self) -> ItemContentView {
        ItemContentView {
            content_type: self.content_type@,
            text: text_opt(self.text),
            audio: text_opt(self.audio),
            transcript: text_opt(self.transcript),
            image_url: text_opt(self.image_url),
            detail: text_opt(self.detail),
        }
    }
}

impl ItemContentView {
    /// The document that is written.
    pub open spec fn json(self) -> Json {
        empty_object().with("type"@, Json::Text(self.content_type)).with_some(
            "text"@,
            text_json(self.text),
        ).with_some("audio"@, text_json(self.audio)).with_some(
            "transcript"@,
            text_json(self.transcript),
        ).with_some("image_url"@, text_json(self.image_url)).with_some(
            "detail"@,
            text_json(self.detail),
        )
    }

    /// What a document says; nothing where it is no such structure.
    pub open spec fn read(j: Json) -> Option<ItemContentView> {
        let content_type = read_text(member(j, "type"@, 0));
        let text = read_text_opt(member(j, "text"@, 1));
        let audio = read_text_opt(member(j, "audio"@, 2));
        let transcript = read_text_opt(member(j, "transcript"@, 3));
        let image_url = read_text_opt(member(j, "image_url"@, 4));
        let detail = read_text_opt(member(j, "detail"@, 5));
        if holds_structure(j, 6, 6) && content_type is Some && text is Some && audio is Some
            && transcript is Some && image_url is Some && detail is Some {
            Some(
                ItemContentView {
                    content_type: content_type->0,
                    text: text->0,
                    audio: audio->0,
                    transcript: transcript->0,
                    image_url: image_url->0,
                    detail: detail->0,
                },
            )
        } else {
            None
        }
    }
}

impl ItemContent {
    /// Writes it as a document.
    pub fn to_value(&self) -> (r: Value)
        ensures
            json_of(r) == self@.json(),
    {
        let mut v = value_object();
        set_str(&mut v, "type", self.content_type.as_str());
        set_text(&mut v, "text", &self.text);
        set_text(&mut v, "audio", &self.audio);
        set_text(&mut v, "transcript", &self.transcript);
        set_text(&mut v, "image_url", &self.image_url);
        set_text(&mut v, "detail", &self.detail);
        v
    }

    /// Reads it from a document.
    pub fn from_value(v: &Value) -> (r: Option<Self>)
        ensures
            match r {
                Some(x) => ItemContentView::read(json_of(*v)) == Some(x@),
                None => ItemContentView::read(json_of(*v)) is None,
            },
    {
        if !is_structure(v, 6, 6) {
            return None;
        }
        let content_type = match get_text(get_member(v, "type", 0)) {
            Some(x) => x,
            None => return None,
        };
        let text = match get_text_opt(get_member(v, "text", 1)) {
            Some(x) => x,
            None => return None,
        };
        let audio = match get_text_opt(get_member(v, "audio", 2)) {
            Some(x) => x,
            None => return None,
        };
        let transcript = match get_text_opt(get_member(v, "transcript", 3)) {
            Some(x) => x,
            None => return None,
        };
        let image_url = match get_text_opt(get_member(v, "image_url", 4)) {
            Some(x) => x,
            None => return None,
        };
        let detail = match get_text_opt(get_member(v, "detail", 5)) {
            Some(x) => x,
            None => return None,
        };
        Some(ItemContent { content_type, text, audio, transcript, image_url, detail })
    }

    /// A copy.
    pub fn copy(&self) -> (r: Self)
        ensures
            r@ == self@,
    {
        ItemContent {
            content_type: self.content_type.clone(),
            text: clone_text_opt(&self.text),
            audio: clone_text_opt(&self.audio),
            transcript: clone_text_opt(&self.transcript),
            image_url: clone_text_opt(&self.image_url),
            detail: clone_text_opt(&self.detail),
        }
    }
}

/// The parts of a list.
pub open spec fn parts_of(s: Seq<ItemContent>) -> Seq<ItemContentView> {
    s.map_values(|c: ItemContent| c@)
}

/// The parts of an optional list.
pub open spec fn parts_opt(s: Option<Vec<ItemContent>>) -> Option<Seq<ItemContentView>> {
    match s {
        Some(list) => Some(parts_of(list@)),
        None => None,
    }
}

/// An optional list of parts as a document.
pub open spec fn parts_json(s: Option<Seq<ItemContentView>>) -> Option<Json> {
    match s {
        Some(list) => Some(Json::Array(list.map_values(|c: ItemContentView| c.json()))),
        None => None,
    }
}

/// A list of parts. Nothing where one of them is no part.
pub open spec fn read_parts(list: Seq<Json>) -> Option<Seq<ItemContentView>>
    decreases list.len(),
{
    if list.len() == 0 {
        Some(Seq::empty())
    } else {
        match (read_parts(list.drop_last()), ItemContentView::read(list.last())) {
            (Some(front), Some(last)) => Some(front.push(last)),
            _ => None,
        }
    }
}

/// An optional list of parts.
pub open spec fn read_parts_opt(m: Option<Json>) -> Option<Option<Seq<ItemContentView>>> {
    match m {
        None => Some(None),
        Some(Json::Null) => Some(None),
        Some(Json::Array(list)) => match read_parts(list) {
            Some(parts) => Some(Some(parts)),
            None => None,
        },
        _ => None,
    }
}

proof fn lemma_read_parts_prefix(list: Seq<Json>, n: int)
    requires
        0 <= n <= list.len(),
        read_parts(list.take(n)) is None,
    ensures
        read_parts(list) is None,
    decreases list.len() - n,
{
    if n < list.len() {
        assert(list.take(n + 1).drop_last() =~= list.take(n));
        lemma_read_parts_prefix(list, n + 1);
    } else {
        assert(list.take(n) =~= list);
    }
}

fn set_parts(v: &mut Value, key: &str, parts: &Option<Vec<ItemContent>>)
    requires
        json_of(*old(v)) is Object,
    ensures
        json_of(*final(v)) == json_of(*old(v)).with_some(key@, parts_json(parts_opt(*parts))),
{
    if let Some(list) = parts {
        let ghost all = parts_of(list@).map_values(|c: ItemContentView| c.json());
        let mut items: Vec<Value> = Vec::new();
        let mut i: usize = 0;
        proof {
            assert(json_seq(items@) =~= all.take(0));
        }
        while i < list.len()
            invariant
                i <= list@.len(),
                all == parts_of(list@).map_values(|c: ItemContentView| c.json()),
                json_seq(items@) == all.take(i as int),
            decreases list@.len() - i,
        {
            let ghost done = json_seq(items@);
            items.push(list[i].to_value());
            proof {
                assert(json_seq(items@) =~= done.push(all[i as int]));
                assert(all.take(i + 1) =~= all.take(i as int).push(all[i as int]));
            }
            i = i + 1;
        }
        proof {
            assert(all.take(all.len() as int) =~= all);
        }
        value_set(v, key, value_array(items));
    }
}

fn get_parts_opt(v: Option<&Value>) -> (r: Option<Option<Vec<ItemContent>>>)
    ensures
        match r {
            Some(p) => read_parts_opt(ref_json(v)) == Some(parts_opt(p)),
            None => read_parts_opt(ref_json(v)) is None,
        },
{
    let x: &Value = match v {
        Some(x) => x,
        None => return Some(None),
    };
    if value_is_null(x) {
        return Some(None);
    }
    let items: &Vec<Value> = match value_as_array(x) {
        Some(items) => items,
        None => return None,
    };
    let ghost all = json_seq(items@);
    let mut out: Vec<ItemContent> = Vec::new();
    let mut i: usize = 0;
    proof {
        assert(all.take(0) =~= Seq::empty());
        assert(parts_of(out@) =~= Seq::empty());
    }
    while i < items.len()
        invariant
            i <= items@.len(),
            all == json_seq(items@),
            json_of(*x) == Json::Array(all),
            v == Some(x),
            read_parts(all.take(i as int)) == Some(parts_of(out@)),
        decreases items@.len() - i,
    {
        let ghost done = parts_of(out@);
        proof {
            assert(all.take(i + 1).drop_last() =~= all.take(i as int));
            assert(all.take(i + 1).last() == json_of(items@[i as int]));
        }
        match ItemContent::from_value(&items[i]) {
            Some(part) => {
                let ghost said = part@;
                out.push(part);
                proof {
                    assert(parts_of(out@) =~= done.push(said));
                }
            },
            None => {
                proof {
                    lemma_read_parts_prefix(all, i + 1);
                }
                return None;
            },
        }
        i = i + 1;
    }
    proof {
        assert(all.take(all.len() as int) =~= all);
    }
    Some(Some(out))
}

fn copy_parts(parts: &Option<Vec<ItemContent>>) -> (r: Option<Vec<ItemContent>>)
    ensures
        parts_opt(r) == parts_opt(*parts),
{
    match parts {
        Some(list) => {
            let ghost all = parts_of(list@);
            let mut out: Vec<ItemContent> = Vec::new();
            let mut i: usize = 0;
            proof {
                assert(parts_of(out@) =~= all.take(0));
            }
            while i < list.len()
                invariant
                    i <= list@.len(),
                    all == parts_of(list@),
                    parts_of(out@) == all.take(i as int),
                decreases list@.len() - i,
            {
                let ghost done = parts_of(out@);
                out.push(list[i].copy());
                proof {
                    assert(parts_of(out@) =~= done.push(all[i as int]));
                    assert(all.take(i + 1) =~= all.take(i as int).push(all[i as int]));
                }
                i = i + 1;
            }
            proof {
                assert(all.take(all.len() as int) =~= all);
            }
            Some(out)
        },
        None => None,
    }
}

/// An item of a conversation.
#[derive(Debug)]
pub struct ConversationItem {
    pub id: String,
    pub item_type: String,
    pub role: Option<String>,
    pub content: Option<Vec<ItemContent>>,
    pub call_id: Option<String>,
    pub name: Option<String>,
    pub arguments: Option<String>,
    pub output: Option<String>,
    pub status: Option<String>,
    pub object: Option<String>,
}

/// What a [`ConversationItem`] says.
pub struct ConversationItemView {
    pub id: Seq<char>,
    pub item_type: Seq<char>,
    pub role: Option<Seq<char>>,
    pub content: Option<Seq<ItemContentView>>,
    pub call_id: Option<Seq<char>>,
    pub name: Option<Seq<char>>,
    pub arguments: Option<Seq<char>>,
    pub output: Option<Seq<char>>,
    pub status: Option<Seq<char>>,
    pub object: Option<Seq<char>>,
}

impl View for ConversationItem {
    type V = ConversationItemView;

    open spec fn view(&self) -> ConversationItemView {
        ConversationItemView {
            id: self.id@,
            item_type: self.item_type@,
            role: text_opt(self.role),
            content: parts_opt(self.content),
            call_id: text_opt(self.call_id),
            name: text_opt(self.name),
            arguments: text_opt(self.arguments),
            output: text_opt(self.output),
            status: text_opt(self.status),
            object: text_opt(self.object),
        }
    }
}

impl ConversationItemView {
    /// An item of a type, with nothing but an id.
    pub open spec fn bare(id: Seq<char>, item_type: Seq<char>) -> ConversationItemView {
        ConversationItemView {
            id,
            item_type,
            role: None,
            content: None,
            call_id: None,
            name: None,
            arguments: None,
            output: None,
            status: None,
            object: None,
        }
    }

    /// The document that is written.
    pub open spec fn json(self) -> Json {
        empty_object().with("id"@, Json::Text(self.id)).with(
            "type"@,
            Json::Text(self.item_type),
        ).with_some("role"@, text_json(self.role)).with_some(
            "content"@,
            parts_json(self.content),
        ).with_some("call_id"@, text_json(self.call_id)).with_some(
            "name"@,
            text_json(self.name),
        ).with_some("arguments"@, text_json(self.arguments)).with_some(
            "output"@,
            text_json(self.output),
        ).with_some("status"@, text_json(self.status)).with_some(
            "object"@,
            text_json(self.object),
        )
    }

    /// What a document says; nothing where it is no such structure. An item
    /// without an id is given the one at hand.
    pub open spec fn read(j: Json, fresh_id: Seq<char>) -> Option<ConversationItemView> {
        let id = match member(j, "id"@, 0) {
            None => Some(fresh_id),
            Some(m) => read_text(Some(m)),
        };
        let item_type = read_text(member(j, "type"@, 1));
        let role = read_text_opt(member(j, "role"@, 2));
        let content = read_parts_opt(member(j, "content"@, 3));
        let call_id = read_text_opt(member(j, "call_id"@, 4));
        let name = read_text_opt(member(j, "name"@, 5));
        let arguments = read_text_opt(member(j, "arguments"@, 6));
        let output = read_text_opt(member(j, "output"@, 7));
        let status = read_text_opt(member(j, "status"@, 8));
        let object = read_text_opt(member(j, "object"@, 9));
        if holds_structure(j, 10, 10) && id is Some && item_type is Some && role is Some
            && content is Some && call_id is Some && name is Some && arguments is Some
            && output is Some && status is Some && object is Some {
            Some(
                ConversationItemView {
                    id: id->0,
                    item_type: item_type->0,
                    role: role->0,
                    content: content->0,
                    call_id: call_id->0,
                    name: name->0,
                    arguments: arguments->0,
                    output: output->0,
                    status: status->0,
                    object: object->0,
                },
            )
        } else {
            None
        }
    }
}

impl ConversationItem {
    /// Writes it as a document.
    pub fn to_value(&self) -> (r: Value)
        ensures
            json_of(r) == self@.json(),
    {
        let mut v = value_object();
        set_str(&mut v, "id", self.id.as_str());
        set_str(&mut v, "type", self.item_type.as_str());
        set_text(&mut v, "role", &self.role);
        set_parts(&mut v, "content", &self.content);
        set_text(&mut v, "call_id", &self.call_id);
        set_text(&mut v, "name", &self.name);
        set_text(&mut v, "arguments", &self.arguments);
        set_text(&mut v, "output", &self.output);
        set_text(&mut v, "status", &self.status);
        set_text(&mut v, "object", &self.object);
        v
    }

    /// Reads it from a document. An item without an id is given the one at
    /// hand.
    pub fn from_value_or(v: &Value, fresh_id: String) -> (r: Option<Self>)
        ensures
            match r {
                Some(x) => ConversationItemView::read(json_of(*v), fresh_id@) == Some(x@),
                None => ConversationItemView::read(json_of(*v), fresh_id@) is None,
            },
    {
        if !is_structure(v, 10, 10) {
            return None;
        }
        let id = match get_member(v, "id", 0) {
            None => fresh_id,
            Some(m) => match get_text(Some(m)) {
                Some(x) => x,
                None => return None,
            },
        };
        let item_type = match get_text(get_member(v, "type", 1)) {
            Some(x) => x,
            None => return None,
        };
        let role = match get_text_opt(get_member(v, "role", 2)) {
            Some(x) => x,
            None => return None,
        };
        let content = match get_parts_opt(get_member(v, "content", 3)) {
            Some(x) => x,
            None => return None,
        };
        let call_id = match get_text_opt(get_member(v, "call_id", 4)) {
            Some(x) => x,
            None => return None,
        };
        let name = match get_text_opt(get_member(v, "name", 5)) {
            Some(x) => x,
            None => return None,
        };
        let arguments = match get_text_opt(get_member(v, "arguments", 6)) {
            Some(x) => x,
            None => return None,
        };
        let output = match get_text_opt(get_member(v, "output", 7)) {
            Some(x) => x,
            None => return None,
        };
        let status = match get_text_opt(get_member(v, "status", 8)) {
            Some(x) => x,
            None => return None,
        };
        let object = match get_text_opt(get_member(v, "object", 9)) {
            Some(x) => x,
            None => return None,
        };
        Some(
            ConversationItem {
                id,
                item_type,
                role,
                content,
                call_id,
                name,
                arguments,
                output,
                status,
                object,
            },
        )
    }

    /// Reads it from a document. An item without an id is given a new one.
    pub fn from_value(v: &Value) -> (r: Option<Self>)
        ensures
            match r {
                Some(x) => reads_item(json_of(*v), x@),
                None => !item_readable(json_of(*v)),
            },
            r is Some ==> item_readable(json_of(*v)),
    {
        let fresh_id = default_item_id();
        let ghost fresh = fresh_id@;
        let r = Self::from_value_or(v, fresh_id);
        proof {
            assert(ConversationItemView::read(json_of(*v), fresh) is Some <==> item_readable(
                json_of(*v),
            ));
        }
        r
    }

    /// A copy.
    pub fn copy(&self) -> (r: Self)
        ensures
            r@ == self@,
    {
        ConversationItem {
            id: self.id.clone(),
            item_type: self.item_type.clone(),
            role: clone_text_opt(&self.role),
            content: copy_parts(&self.content),
            call_id: clone_text_opt(&self.call_id),
            name: clone_text_opt(&self.name),
            arguments: clone_text_opt(&self.arguments),
            output: clone_text_opt(&self.output),
            status: clone_text_opt(&self.status),
            object: clone_text_opt(&self.object),
        }
    }
}

/// Whether a document is an item.
pub open spec fn item_readable(j: Json) -> bool {
    ConversationItemView::read(j, Seq::empty()) is Some
}

/// Whether an item is what a document says, with a new id where the document
/// has none.
pub open spec fn reads_item(j: Json, item: ConversationItemView) -> bool {
    exists|fresh: Seq<char>|
        is_item_id(fresh) && #[trigger] ConversationItemView::read(j, fresh) == Some(item)
}

/// Adds an item to the conversation.
#[derive(Debug)]
pub struct ConversationItemCreateEvent {
    pub event_type: &'static str,
    pub event_id: String,
    pub item: ConversationItem,
}

impl ConversationItemCreateEvent {
    pub fn new(item: ConversationItem) -> (r: Self)
        ensures
            r.event_type@ == "conversation.item.create"@,
            is_event_id(r.event_id@),
            r.item == item,
    {
        ConversationItemCreateEvent {
            event_type: "conversation.item.create",
            event_id: make_event_id(),
            item,
        }
    }

    /// The document that is written.
    pub open spec fn json(self) -> Json {
        event_json(self.event_type@, self.event_id@).with("item"@, self.item@.json())
    }

    /// Writes it as a document.
    pub fn to_value(&self) -> (r: Value)
        ensures
            json_of(r) == self.json(),
    {
        let mut v = event_value(self.event_type, &self.event_id);
        value_set(&mut v, "item", self.item.to_value());
        v
    }
}

/// Cuts the audio of an item off.
#[derive(Debug)]
pub struct ConversationItemTruncateEvent {
    pub event_type: &'static str,
    pub event_id: String,
    pub item_id: String,
    pub content_index: u32,
    pub audio_end_ms: u64,
}

impl ConversationItemTruncateEvent {
    pub fn new(item_id: String, content_index: u32, audio_end_ms: u64) -> (r: Self)
        ensures
            r.event_type@ == "conversation.item.truncate"@,
            is_event_id(r.event_id@),
            r.item_id == item_id,
            r.content_index == content_index,
            r.audio_end_ms == audio_end_ms,
    {
        ConversationItemTruncateEvent {
            event_type: "conversation.item.truncate",
            event_id: make_event_id(),
            item_id,
            content_index,
            audio_end_ms,
        }
    }

    /// The document that is written.
    pub open spec fn json(self) -> Json {
        event_json(self.event_type@, self.event_id@).with("item_id"@, Json::Text(self.item_id@)).with(
            "content_index"@,
            Json::Number(JsonNumber::Unsigned(self.content_index as u64)),
        ).with("audio_end_ms"@, Json::Number(JsonNumber::Unsigned(self.audio_end_ms)))
    }

    /// Writes it as a document.
    pub fn to_value(&self) -> (r: Value)
        ensures
            json_of(r) == self.json(),
    {
        let mut v = event_value(self.event_type, &self.event_id);
        set_str(&mut v, "item_id", self.item_id.as_str());
        value_set(&mut v, "content_index", value_u64(self.content_index as u64));
        value_set(&mut v, "audio_end_ms", value_u64(self.audio_end_ms));
        v
    }
}

// ---------------------------------------------------------------------------
// Server events
// ---------------------------------------------------------------------------

/// Details of the tokens that were used.
#[derive(Debug, Clone, Copy, PartialEq, Eq, Structural)]
pub struct TokenDetails {
    pub cached_tokens: Option<u32>,
    pub text_tokens: Option<u32>,
    pub audio_tokens: Option<u32>,
}

impl TokenDetails {
    /// What a document says; nothing where it is no such structure.
    pub open spec fn read(j: Json) -> Option<TokenDetails> {
        let cached_tokens = read_u32_opt(member(j, "cached_tokens"@, 0));
        let text_tokens = read_u32_opt(member(j, "text_tokens"@, 1));
        let audio_tokens = read_u32_opt(member(j, "audio_tokens"@, 2));
        if holds_structure(j, 0, 3) && cached_tokens is Some && text_tokens is Some
            && audio_tokens is Some {
            Some(
                TokenDetails {
                    cached_tokens: cached_tokens->0,
                    text_tokens: text_tokens->0,
                    audio_tokens: audio_tokens->0,
                },
            )
        } else {
            None
        }
    }

    /// What an optional document says: missing, null or the structure.
    pub open spec fn read_opt(m: Option<Json>) -> Option<Option<TokenDetails>> {
        match m {
            None => Some(None),
            Some(Json::Null) => Some(None),
            Some(j) => match Self::read(j) {
                Some(x) => Some(Some(x)),
                None => None,
            },
        }
    }

    /// Reads it from a document.
    pub fn from_value(v: &Value) -> (r: Option<Self>)
        ensures
            r == TokenDetails::read(json_of(*v)),
    {
        if !is_structure(v, 0, 3) {
            return None;
        }
        let cached_tokens: Option<u32> = match get_u32_opt(get_member(v, "cached_tokens", 0)) {
            Some(x) => x,
            None => return None,
        };
        let text_tokens: Option<u32> = match get_u32_opt(get_member(v, "text_tokens", 1)) {
            Some(x) => x,
            None => return None,
        };
        let audio_tokens: Option<u32> = match get_u32_opt(get_member(v, "audio_tokens", 2)) {
            Some(x) => x,
            None => return None,
        };
        Some(TokenDetails { cached_tokens, text_tokens, audio_tokens })
    }

    fn from_opt(v: Option<&Value>) -> (r: Option<Option<Self>>)
        ensures
            r == TokenDetails::read_opt(ref_json(v)),
    {
        match v {
            Some(x) => {
                if value_is_null(x) {
                    return Some(None);
                }
                match Self::from_value(x) {
                    Some(y) => Some(Some(y)),
                    None => None,
                }
            },
            None => Some(None),
        }
    }
}

/// Usage statistics from a completed response.
#[derive(Debug, Clone, Copy, PartialEq, Eq, Structural)]
pub struct Usage {
    pub total_tokens: u32,
    pub input_tokens: u32,
    pub output_tokens: u32,
    pub input_token_details: Option<TokenDetails>,
    pub output_token_details: Option<TokenDetails>,
}

impl Usage {
    /// What a document says; nothing where it is no such structure.
    pub open spec fn read(j: Json) -> Option<Usage> {
        let total_tokens = read_u32_or_zero(member(j, "total_tokens"@, 0));
        let input_tokens = read_u32_or_zero(member(j, "input_tokens"@, 1));
        let output_tokens = read_u32_or_zero(member(j, "output_tokens"@, 2));
        let input_details = TokenDetails::read_opt(member(j, "input_token_details"@, 3));
        let output_details = TokenDetails::read_opt(member(j, "output_token_details"@, 4));
        if holds_structure(j, 0, 5) && total_tokens is Some && input_tokens is Some
            && output_tokens is Some && input_details is Some && output_details is Some {
            Some(
                Usage {
                    total_tokens: total_tokens->0,
                    input_tokens: input_tokens->0,
                    output_tokens: output_tokens->0,
                    input_token_details: input_details->0,
                    output_token_details: output_details->0,
                },
            )
        } else {
            None
        }
    }

    /// What an optional document says: missing, null or the structure.
    pub open spec fn read_opt(m: Option<Json>) -> Option<Option<Usage>> {
        match m {
            None => Some(None),
            Some(Json::Null) => Some(None),
            Some(j) => match Self::read(j) {
                Some(x) => Some(Some(x)),
                None => None,
            },
        }
    }

    /// Reads it from a document.
    pub fn from_value(v: &Value) -> (r: Option<Self>)
        ensures
            r == Usage::read(json_of(*v)),
    {
        if !is_structure(v, 0, 5) {
            return None;
        }
        let total_tokens: u32 = match get_u32_or_zero(get_member(v, "total_tokens", 0)) {
            Some(x) => x,
            None => return None,
        };
        let input_tokens: u32 = match get_u32_or_zero(get_member(v, "input_tokens", 1)) {
            Some(x) => x,
            None => return None,
        };
        let output_tokens: u32 = match get_u32_or_zero(get_member(v, "output_tokens", 2)) {
            Some(x) => x,
            None => return None,
        };
        let input_token_details = match TokenDetails::from_opt(
            get_member(v, "input_token_details", 3),
        ) {
            Some(x) => x,
            None => return None,
        };
        let output_token_details = match TokenDetails::from_opt(
            get_member(v, "output_token_details", 4),
        ) {
            Some(x) => x,
            None => return None,
        };
        Some(
            Usage {
                total_tokens,
                input_tokens,
                output_tokens,
                input_token_details,
                output_token_details,
            },
        )
    }

    fn from_opt(v: Option<&Value>) -> (r: Option<Option<Self>>)
        ensures
            r == Usage::read_opt(ref_json(v)),
    {
        match v {
            Some(x) => {
                if value_is_null(x) {
                    return Some(None);
                }
                match Self::from_value(x) {
                    Some(y) => Some(Some(y)),
                    None => None,
                }
            },
            None => Some(None),
        }
    }
}

/// Response object from `response.done`.
#[derive(Debug)]
pub struct Response {
    pub id: String,
    pub status: String,
    pub output: Vec<ConversationItem>,
    pub usage: Option<Usage>,
}

/// What a [`Response`] says.
pub struct ResponseView {
    pub id: Seq<char>,
    pub status: Seq<char>,
    pub output: Seq<ConversationItemView>,
    pub usage: Option<Usage>,
}

/// The items in a list.
pub open spec fn items_of(s: Seq<ConversationItem>) -> Seq<ConversationItemView> {
    s.map_values(|i: ConversationItem| i@)
}

impl View for Response {
    type V = ResponseView;

    open spec fn view(&self) -> ResponseView {
        ResponseView {
            id: self.id@,
            status: self.status@,
            output: items_of(self.output@),
            usage: self.usage,
        }
    }
}

/// Whether a list of items is readable: a list, or missing.
pub open spec fn items_readable(m: Option<Json>) -> bool {
    match m {
        None => true,
        Some(Json::Array(list)) => all_readable(list),
        _ => false,
    }
}

/// Whether all documents of a list are items.
pub open spec fn all_readable(list: Seq<Json>) -> bool {
    forall|i: int| 0 <= i < list.len() ==> item_readable(#[trigger] list[i])
}

/// Whether items are what a list says.
pub open spec fn reads_items(m: Option<Json>, items: Seq<ConversationItemView>) -> bool {
    match m {
        None => items.len() == 0,
        Some(Json::Array(list)) => items.len() == list.len() && forall|i: int|
            0 <= i < list.len() ==> reads_item(#[trigger] list[i], items[i]),
        _ => false,
    }
}

/// Whether a document is a response.
pub open spec fn response_readable(j: Json) -> bool {
    &&& holds_structure(j, 2, 4)
    &&& read_text(member(j, "id"@, 0)) is Some
    &&& read_text(member(j, "status"@, 1)) is Some
    &&& items_readable(member(j, "output"@, 2))
    &&& Usage::read_opt(member(j, "usage"@, 3)) is Some
}

/// Whether a response is what a document says.
pub open spec fn reads_response(j: Json, r: ResponseView) -> bool {
    &&& holds_structure(j, 2, 4)
    &&& read_text(member(j, "id"@, 0)) == Some(r.id)
    &&& read_text(member(j, "status"@, 1)) == Some(r.status)
    &&& reads_items(member(j, "output"@, 2), r.output)
    &&& Usage::read_opt(member(j, "usage"@, 3)) == Some(r.usage)
}

impl Response {
    fn items_from(v: Option<&Value>) -> (r: Option<Vec<ConversationItem>>)
        ensures
            match r {
                Some(items) => reads_items(ref_json(v), items_of(items@)),
                None => !items_readable(ref_json(v)),
            },
            r is Some ==> items_readable(ref_json(v)),
    {
        let mut out: Vec<ConversationItem> = Vec::new();
        let x: &Value = match v {
            Some(x) => x,
            None => return Some(out),
        };
        let items: &Vec<Value> = match value_as_array(x) {
            Some(items) => items,
            None => return None,
        };
        let ghost all = json_seq(items@);
        let mut i: usize = 0;
        while i < items.len()
            invariant
                i <= items@.len(),
                all == json_seq(items@),
                json_of(*x) == Json::Array(all),
                v == Some(x),
                out@.len() == i,
                forall|j: int| 0 <= j < i ==> item_readable(#[trigger] all[j]),
                forall|j: int| 0 <= j < i ==> reads_item(#[trigger] all[j], out@[j]@),
            decreases items@.len() - i,
        {
            assert(all[i as int] == json_of(items@[i as int]));
            match ConversationItem::from_value(&items[i]) {
                Some(item) => {
                    out.push(item);
                },
                None => {
                    assert(!item_readable(all[i as int]) && i < all.len());
                    assert(ref_json(v) == Some(Json::Array(all)));
                    assert(!all_readable(all));
                    return None;
                },
            }
            i = i + 1;
        }
        proof {
            let items = items_of(out@);
            assert forall|j: int| 0 <= j < all.len() implies reads_item(
                #[trigger] all[j],
                items[j],
            ) by {
                assert(items[j] == out@[j]@);
            }
        }
        Some(out)
    }

    /// Reads it from a document.
    pub fn from_value(v: &Value) -> (r: Option<Self>)
        ensures
            match r {
                Some(x) => reads_response(json_of(*v), x@),
                None => !response_readable(json_of(*v)),
            },
            r is Some ==> response_readable(json_of(*v)),
    {
        if !is_structure(v, 2, 4) {
            return None;
        }
        let id = match get_text(get_member(v, "id", 0)) {
            Some(x) => x,
            None => return None,
        };
        let status = match get_text(get_member(v, "status", 1)) {
            Some(x) => x,
            None => return None,
        };
        let output = match Self::items_from(get_member(v, "output", 2)) {
            Some(x) => x,
            None => return None,
        };
        let usage = match Usage::from_opt(get_member(v, "usage", 3)) {
            Some(x) => x,
            None => return None,
        };
        Some(Response { id, status, output, usage })
    }
}

/// Error from the service.
#[derive(Debug)]
pub struct RealtimeError {
    pub error_type: String,
    pub code: Option<String>,
    pub message: String,
}

/// What a [`RealtimeError`] says.
pub struct RealtimeErrorView {
    pub error_type: Seq<char>,
    pub code: Option<Seq<char>>,
    pub message: Seq<char>,
}

impl View for RealtimeError {
    type V = RealtimeErrorView;

    open spec fn view(&self) -> RealtimeErrorView {
        RealtimeErrorView {
            error_type: self.error_type@,
            code: text_opt(self.code),
            message: self.message@,
        }
    }
}

impl RealtimeErrorView {
    /// What a document says; nothing where it is no such structure.
    pub open spec fn read(j: Json) -> Option<RealtimeErrorView> {
        let error_type = read_text_or_empty(member(j, "type"@, 0));
        let code = read_text_opt(member(j, "code"@, 1));
        let message = read_text_or_empty(member(j, "message"@, 2));
        if holds_structure(j, 0, 3) && error_type is Some && code is Some && message is Some {
            Some(
                RealtimeErrorView {
                    error_type: error_type->0,
                    code: code->0,
                    message: message->0,
                },
            )
        } else {
            None
        }
    }
}

impl RealtimeError {
    /// Reads it from a document.
    pub fn from_value(v: &Value) -> (r: Option<Self>)
        ensures
            match r {
                Some(x) => RealtimeErrorView::read(json_of(*v)) == Some(x@),
                None => RealtimeErrorView::read(json_of(*v)) is None,
            },
    {
        if !is_structure(v, 0, 3) {
            return None;
        }
        let error_type = match get_text_or_empty(get_member(v, "type", 0)) {
            Some(x) => x,
            None => return None,
        };
        let code = match get_text_opt(get_member(v, "code", 1)) {
            Some(x) => x,
            None => return None,
        };
        let message = match get_text_or_empty(get_member(v, "message", 2)) {
            Some(x) => x,
            None => return None,
        };
        Some(RealtimeError { error_type, code, message })
    }
}

/// Server event. Each variant holds only the members that are used.
#[derive(Debug)]
pub enum ServerEvent {
    SessionCreated,
    SessionUpdated,
    /// Audio data from the assistant's response.
    ResponseAudioDelta { item_id: String, content_index: u32, delta: String },
    ResponseAudioDone { item_id: String, content_index: u32 },
    /// Text output delta.
    ResponseTextDelta { delta: String },
    /// Audio transcript delta.
    ResponseAudioTranscriptDelta { delta: String },
    /// A new conversation item was added.
    ConversationItemAdded { item: ConversationItem },
    /// Input audio transcription completed.
    TranscriptionCompleted { transcript: String },
    /// Input audio transcription delta (interim).
    TranscriptionDelta { delta: String },
    /// Function call arguments are complete.
    FunctionCallArgumentsDone { call_id: String, arguments: String },
    /// The server detected speech start.
    SpeechStarted { audio_start_ms: u64, item_id: String },
    /// The server detected speech stop.
    SpeechStopped { audio_end_ms: u64 },
    /// Response is complete with usage stats.
    ResponseDone { response: Response },
    /// Error from the service.
    Error { error: RealtimeError },
    /// An event type that is not handled.
    Unknown { event_type: String },
}

/// What a [`ServerEvent`] says.
pub enum ServerEventView {
    SessionCreated,
    SessionUpdated,
    ResponseAudioDelta { item_id: Seq<char>, content_index: u32, delta: Seq<char> },
    ResponseAudioDone { item_id: Seq<char>, content_index: u32 },
    ResponseTextDelta { delta: Seq<char> },
    ResponseAudioTranscriptDelta { delta: Seq<char> },
    ConversationItemAdded { item: ConversationItemView },
    TranscriptionCompleted { transcript: Seq<char> },
    TranscriptionDelta { delta: Seq<char> },
    FunctionCallArgumentsDone { call_id: Seq<char>, arguments: Seq<char> },
    SpeechStarted { audio_start_ms: u64, item_id: Seq<char> },
    SpeechStopped { audio_end_ms: u64 },
    ResponseDone { response: ResponseView },
    Error { error: RealtimeErrorView },
    Unknown { event_type: Seq<char> },
}

impl View for ServerEvent {
    type V = ServerEventView;

    open spec fn view(&self) -> ServerEventView {
        match *self {
            ServerEvent::SessionCreated => ServerEventView::SessionCreated,
            ServerEvent::SessionUpdated => ServerEventView::SessionUpdated,
            ServerEvent::ResponseAudioDelta { item_id, content_index, delta } => {
                ServerEventView::ResponseAudioDelta {
                    item_id: item_id@,
                    content_index,
                    delta: delta@,
                }
            },
            ServerEvent::ResponseAudioDone { item_id, content_index } => {
                ServerEventView::ResponseAudioDone { item_id: item_id@, content_index }
            },
            ServerEvent::ResponseTextDelta { delta } => ServerEventView::ResponseTextDelta {
                delta: delta@,
            },
            ServerEvent::ResponseAudioTranscriptDelta { delta } => {
                ServerEventView::ResponseAudioTranscriptDelta { delta: delta@ }
            },
            ServerEvent::ConversationItemAdded { item } => {
                ServerEventView::ConversationItemAdded { item: item@ }
            },
            ServerEvent::TranscriptionCompleted { transcript } => {
                ServerEventView::TranscriptionCompleted { transcript: transcript@ }
            },
            ServerEvent::TranscriptionDelta { delta } => ServerEventView::TranscriptionDelta {
                delta: delta@,
            },
            ServerEvent::FunctionCallArgumentsDone { call_id, arguments } => {
                ServerEventView::FunctionCallArgumentsDone {
                    call_id: call_id@,
                    arguments: arguments@,
                }
            },
            ServerEvent::SpeechStarted { audio_start_ms, item_id } => {
                ServerEventView::SpeechStarted { audio_start_ms, item_id: item_id@ }
            },
            ServerEvent::SpeechStopped { audio_end_ms } => ServerEventView::SpeechStopped {
                audio_end_ms,
            },
            ServerEvent::ResponseDone { response } => ServerEventView::ResponseDone {
                response: response@,
            },
            ServerEvent::Error { error } => ServerEventView::Error { error: error@ },
            ServerEvent::Unknown { event_type } => ServerEventView::Unknown {
                event_type: event_type@,
            },
        }
    }
}

/// The type of an event: `unknown` where the document has none.
pub open spec fn event_type_of(j: Json) -> Seq<char> {
    match j.text_at("type"@) {
        Some(t) => t,
        None => "unknown"@,
    }
}

/// A text member; empty where there is none.
pub open spec fn text_field(j: Json, key: Seq<char>) -> Seq<char> {
    match j.text_at(key) {
        Some(t) => t,
        None => Seq::empty(),
    }
}

/// A number member; zero where there is none.
pub open spec fn number_field(j: Json, key: Seq<char>) -> u64 {
    match j.unsigned_at(key) {
        Some(n) => n,
        None => 0,
    }
}

/// The low 32 bits of a number member; zero where there is none.
pub open spec fn low_field(j: Json, key: Seq<char>) -> u32 {
    (number_field(j, key) % 0x1_0000_0000) as u32
}

/// Whether an item is what an event brings: the item under `item`, or an empty
/// one where there is no readable item.
pub open spec fn item_brought(j: Json, item: ConversationItemView) -> bool {
    match j.get("item"@) {
        Some(m) => if item_readable(m) {
            reads_item(m, item)
        } else {
            item == ConversationItemView::bare(Seq::empty(), Seq::empty())
        },
        None => item == ConversationItemView::bare(Seq::empty(), Seq::empty()),
    }
}

/// Whether a response is what an event brings: the response under `response`,
/// or an empty one of status `unknown` where there is no readable response.
pub open spec fn response_brought(j: Json, response: ResponseView) -> bool {
    let none = ResponseView {
        id: Seq::empty(),
        status: "unknown"@,
        output: Seq::empty(),
        usage: None,
    };
    match j.get("response"@) {
        Some(m) => if response_readable(m) {
            reads_response(m, response)
        } else {
            response == none
        },
        None => response == none,
    }
}

/// The error that an event brings: the one under `error`, or an unknown one
/// where there is no readable error.
pub open spec fn error_brought(j: Json) -> RealtimeErrorView {
    let none = RealtimeErrorView {
        error_type: Seq::empty(),
        code: None,
        message: "unknown error"@,
    };
    match j.get("error"@) {
        Some(m) => match RealtimeErrorView::read(m) {
            Some(e) => e,
            None => none,
        },
        None => none,
    }
}

/// Whether an event is what a document says.
pub open spec fn describes(j: Json, e: ServerEventView) -> bool {
    let t = event_type_of(j);
    if t == "session.created"@ {
        e == ServerEventView::SessionCreated
    } else if t == "session.updated"@ {
        e == ServerEventView::SessionUpdated
    } else if t == "response.output_audio.delta"@ {
        e == (ServerEventView::ResponseAudioDelta {
            item_id: text_field(j, "item_id"@),
            content_index: low_field(j, "content_index"@),
            delta: text_field(j, "delta"@),
        })
    } else if t == "response.output_audio.done"@ {
        e == (ServerEventView::ResponseAudioDone {
            item_id: text_field(j, "item_id"@),
            content_index: low_field(j, "content_index"@),
        })
    } else if t == "response.output_text.delta"@ {
        e == (ServerEventView::ResponseTextDelta { delta: text_field(j, "delta"@) })
    } else if t == "response.output_audio_transcript.delta"@ {
        e == (ServerEventView::ResponseAudioTranscriptDelta { delta: text_field(j, "delta"@) })
    } else if t == "conversation.item.added"@ {
        e matches ServerEventView::ConversationItemAdded { item } && item_brought(j, item)
    } else if t == "conversation.item.input_audio_transcription.completed"@ {
        e == (ServerEventView::TranscriptionCompleted {
            transcript: text_field(j, "transcript"@),
        })
    } else if t == "conversation.item.input_audio_transcription.delta"@ {
        e == (ServerEventView::TranscriptionDelta { delta: text_field(j, "delta"@) })
    } else if t == "response.function_call_arguments.done"@ {
        e == (ServerEventView::FunctionCallArgumentsDone {
            call_id: text_field(j, "call_id"@),
            arguments: text_field(j, "arguments"@),
        })
    } else if t == "input_audio_buffer.speech_started"@ {
        e == (ServerEventView::SpeechStarted {
            audio_start_ms: number_field(j, "audio_start_ms"@),
            item_id: text_field(j, "item_id"@),
        })
    } else if t == "input_audio_buffer.speech_stopped"@ {
        e == (ServerEventView::SpeechStopped { audio_end_ms: number_field(j, "audio_end_ms"@) })
    } else if t == "response.done"@ {
        e matches ServerEventView::ResponseDone { response } && response_brought(j, response)
    } else if t == "error"@ {
        e == (ServerEventView::Error { error: error_brought(j) })
    } else {
        e == (ServerEventView::Unknown { event_type: t })
    }
}

fn str_field(value: &Value, key: &str) -> (r: String)
    ensures
        r@ == text_field(json_of(*value), key@),
{
    match value_get(value, key) {
        Some(v) => match value_as_str(v) {
            Some(s) => s.to_owned(),
            None => String::new(),
        },
        None => String::new(),
    }
}

fn u64_field(value: &Value, key: &str) -> (r: u64)
    ensures
        r == number_field(json_of(*value), key@),
{
    match value_get(value, key) {
        Some(v) => match value_as_u64(v) {
            Some(n) => n,
            None => 0,
        },
        None => 0,
    }
}

fn u32_field(value: &Value, key: &str) -> (r: u32)
    ensures
        r == low_field(json_of(*value), key@),
{
    (u64_field(value, key) % 0x1_0000_0000) as u32
}

fn item_field(value: &Value) -> (r: ConversationItem)
    ensures
        item_brought(json_of(*value), r@),
{
    let item = match value_get(value, "item") {
        Some(v) => ConversationItem::from_value(v),
        None => None,
    };
    match item {
        Some(item) => item,
        None => ConversationItem {
            id: String::new(),
            item_type: String::new(),
            role: None,
            content: None,
            call_id: None,
            name: None,
            arguments: None,
            output: None,
            status: None,
            object: None,
        },
    }
}

fn response_field(value: &Value) -> (r: Response)
    ensures
        response_brought(json_of(*value), r@),
{
    let response = match value_get(value, "response") {
        Some(v) => Response::from_value(v),
        None => None,
    };
    match response {
        Some(response) => response,
        None => {
            let output: Vec<ConversationItem> = Vec::new();
            proof {
                assert(items_of(output@) =~= Seq::empty());
            }
            Response { id: String::new(), status: "unknown".to_owned(), output, usage: None }
        },
    }
}

fn error_field(value: &Value) -> (r: RealtimeError)
    ensures
        r@ == error_brought(json_of(*value)),
{
    let error = match value_get(value, "error") {
        Some(v) => RealtimeError::from_value(v),
        None => None,
    };
    match error {
        Some(error) => error,
        None => RealtimeError {
            error_type: String::new(),
            code: None,
            message: "unknown error".to_owned(),
        },
    }
}

/// Read a server event from a document.
pub fn parse_server_event(value: &Value) -> (r: ServerEvent)
    ensures
        describes(json_of(*value), r@),
{
    let event_type: String = match value_get(value, "type") {
        Some(v) => match value_as_str(v) {
            Some(s) => s.to_owned(),
            None => "unknown".to_owned(),
        },
        None => "unknown".to_owned(),
    };
    let t: &str = event_type.as_str();
    if text_eq(t, "session.created") {
        ServerEvent::SessionCreated
    } else if text_eq(t, "session.updated") {
        ServerEvent::SessionUpdated
    } else if text_eq(t, "response.output_audio.delta") {
        ServerEvent::ResponseAudioDelta {
            item_id: str_field(value, "item_id"),
            content_index: u32_field(value, "content_index"),
            delta: str_field(value, "delta"),
        }
    } else if text_eq(t, "response.output_audio.done") {
        ServerEvent::ResponseAudioDone {
            item_id: str_field(value, "item_id"),
            content_index: u32_field(value, "content_index"),
        }
    } else if text_eq(t, "response.output_text.delta") {
        ServerEvent::ResponseTextDelta { delta: str_field(value, "delta") }
    } else if text_eq(t, "response.output_audio_transcript.delta") {
        ServerEvent::ResponseAudioTranscriptDelta { delta: str_field(value, "delta") }
    } else if text_eq(t, "conversation.item.added") {
        ServerEvent::ConversationItemAdded { item: item_field(value) }
    } else if text_eq(t, "conversation.item.input_audio_transcription.completed") {
        ServerEvent::TranscriptionCompleted { transcript: str_field(value, "transcript") }
    } else if text_eq(t, "conversation.item.input_audio_transcription.delta") {
        ServerEvent::TranscriptionDelta { delta: str_field(value, "delta") }
    } else if text_eq(t, "response.function_call_arguments.done") {
        ServerEvent::FunctionCallArgumentsDone {
            call_id: str_field(value, "call_id"),
            arguments: str_field(value, "arguments"),
        }
    } else if text_eq(t, "input_audio_buffer.speech_started") {
        ServerEvent::SpeechStarted {
            audio_start_ms: u64_field(value, "audio_start_ms"),
            item_id: str_field(value, "item_id"),
        }
    } else if text_eq(t, "input_audio_buffer.speech_stopped") {
        ServerEvent::SpeechStopped { audio_end_ms: u64_field(value, "audio_end_ms") }
    } else if text_eq(t, "response.done") {
        ServerEvent::ResponseDone { response: response_field(value) }
    } else if text_eq(t, "error") {
        ServerEvent::Error { error: error_field(value) }
    } else {
        ServerEvent::Unknown { event_type }
    }
}

/// Calculate audio duration in milliseconds from byte count.
/// Assumes 24kHz, 16-bit (2 bytes/sample), mono.
pub fn calculate_audio_duration_ms(total_bytes: usize) -> (r: u64)
    ensures
        r == (total_bytes as int / 2) * 1000 / 24000,
{
    let samples: u64 = (total_bytes / 2) as u64;
    // 24 samples take a millisecond.
    let millis: u64 = samples / 24;
    assert(samples * 1000 / 24000 == samples / 24) by {
        let s = samples as int;
        assert(s * 1000 / 24000 == s / 24) by (nonlinear_arith)
            requires
                s >= 0,
        ;
    }
    millis
}

} // verus!
