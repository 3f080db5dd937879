//! The state of a realtime session.
use serde_json::Value;
use vstd::prelude::*;
use vstd::string::*;

use crate::collections::TextSet;
use crate::json::{json_opt, Json};
use crate::services::openai::realtime_events::{
    calculate_audio_duration_ms, ConversationItem, ConversationItemView,
};
use crate::text::text_eq;

verus! {

/// An audio response that is being streamed.
#[derive(Debug)]
pub struct CurrentAudioResponse {
    pub item_id: String,
    pub content_index: u32,
    pub start_time_ms: u64,
    pub total_size: usize,
}

/// What a [`CurrentAudioResponse`] says.
pub struct AudioResponseView {
    pub item_id: Seq<char>,
    pub content_index: u32,
    pub start_time_ms: u64,
    pub total_size: usize,
}

impl View for CurrentAudioResponse {
    type V = AudioResponseView;

    open spec fn view(&self) -> AudioResponseView {
        AudioResponseView {
            item_id: self.item_id@,
            content_index: self.content_index,
            start_time_ms: self.start_time_ms,
            total_size: self.total_size,
        }
    }
}

/// What an optional [`CurrentAudioResponse`] says.
pub open spec fn audio_response_opt(x: Option<CurrentAudioResponse>) -> Option<AudioResponseView> {
    match x {
        Some(y) => Some(y@),
        None => None,
    }
}

/// How long audio of so many bytes lasts, in milliseconds.
pub open spec fn duration_ms(total_size: usize) -> int {
    (total_size as int / 2) * 1000 / 24000
}

impl AudioResponseView {
    /// How much of the audio can have been heard, in milliseconds: what has
    /// arrived, and no more than the time since it began.
    pub open spec fn heard_ms(self, now_ms: u64) -> int {
        let elapsed = if now_ms >= self.start_time_ms {
            now_ms - self.start_time_ms
        } else {
            0
        };
        if elapsed <= duration_ms(self.total_size) {
            elapsed
        } else {
            duration_ms(self.total_size)
        }
    }
}

impl CurrentAudioResponse {
    /// Where the audio is to be cut off.
    pub fn truncate_ms(&self, now_ms: u64) -> (r: u64)
        ensures
            r == self@.heard_ms(now_ms),
    {
        let elapsed_ms: u64 = if now_ms >= self.start_time_ms {
            now_ms - self.start_time_ms
        } else {
            0
        };
        let audio_duration_ms: u64 = calculate_audio_duration_ms(self.total_size);
        if elapsed_ms <= audio_duration_ms {
            elapsed_ms
        } else {
            audio_duration_ms
        }
    }
}

/// Items by the id of the call that they belong to.
#[derive(Debug)]
pub struct ItemMap {
    keys: Vec<String>,
    items: Vec<ConversationItem>,
}

spec fn find_key(keys: Seq<String>, key: Seq<char>, i: int) -> Option<int>
    decreases keys.len() - i,
{
    if i >= keys.len() {
        None
    } else if keys[i]@ == key {
        Some(i)
    } else {
        find_key(keys, key, i + 1)
    }
}

spec fn pairs_map(keys: Seq<String>, items: Seq<ConversationItem>) -> Map<
    Seq<char>,
    ConversationItemView,
> {
    Map::new(
        |key: Seq<char>| find_key(keys, key, 0) is Some,
        |key: Seq<char>| items[find_key(keys, key, 0)->0]@,
    )
}

proof fn lemma_find_key(keys: Seq<String>, key: Seq<char>, i: int)
    requires
        0 <= i,
    ensures
        match find_key(keys, key, i) {
            Some(p) => i <= p < keys.len() && keys[p]@ == key && forall|q: int|
                i <= q < p ==> (#[trigger] keys[q])@ != key,
            None => forall|q: int| i <= q < keys.len() ==> (#[trigger] keys[q])@ != key,
        },
    decreases keys.len() - i,
{
    if i < keys.len() && keys[i]@ != key {
        lemma_find_key(keys, key, i + 1);
    }
}

impl View for ItemMap {
    type V = Map<Seq<char>, ConversationItemView>;

    closed spec fn view(&self) -> Map<Seq<char>, ConversationItemView> {
        pairs_map(self.keys@, self.items@)
    }
}

impl ItemMap {
    /// There are as many keys as items, and no key occurs twice.
    pub closed spec fn wf(&self) -> bool {
        &&& self.keys@.len() == self.items@.len()
        &&& forall|i: int, j: int|
            0 <= i < j < self.keys@.len() ==> self.keys@[i]@ != self.keys@[j]@
    }

    pub fn new() -> (r: Self)
        ensures
            r.wf(),
            r@ == Map::<Seq<char>, ConversationItemView>::empty(),
    {
        let r = ItemMap { keys: Vec::new(), items: Vec::new() };
        proof {
            assert(r@ =~= Map::<Seq<char>, ConversationItemView>::empty());
        }
        r
    }

    fn find(&self, key: &str) -> (r: Option<usize>)
        ensures
            match r {
                Some(i) => find_key(self.keys@, key@, 0) == Some(i as int) && i < self.keys@.len(),
                None => find_key(self.keys@, key@, 0) is None,
            },
    {
        let mut i: usize = 0;
        while i < self.keys.len()
            invariant
                i <= self.keys@.len(),
                find_key(self.keys@, key@, 0) == find_key(self.keys@, key@, i as int),
            decreases self.keys@.len() - i,
        {
            if text_eq(self.keys[i].as_str(), key) {
                return Some(i);
            }
            i = i + 1;
        }
        None
    }

    /// Whether there is an item for a key.
    pub fn contains(&self, key: &str) -> (r: bool)
        ensures
            r == self@.dom().contains(key@),
    {
        self.find(key).is_some()
    }

    /// Adds an item for a key that has none.
    pub fn insert(&mut self, key: String, item: ConversationItem)
        requires
            old(self).wf(),
            !old(self)@.dom().contains(key@),
        ensures
            final(self).wf(),
            final(self)@ == old(self)@.insert(key@, item@),
    {
        let ghost (keys, items) = (self.keys@, self.items@);
        let ghost (name, said) = (key@, item@);
        proof {
            lemma_find_key(keys, name, 0);
        }
        self.keys.push(key);
        self.items.push(item);
        proof {
            assert forall|k: Seq<char>| true implies {
                &&& #[trigger] self@.dom().contains(k) <==> (old(self)@.dom().contains(k) || k
                    == name)
                &&& self@.dom().contains(k) ==> self@[k] == old(self)@.insert(name, said)[k]
            } by {
                lemma_find_key(keys, k, 0);
                lemma_find_key(self.keys@, k, 0);
                assert(self.keys@.last()@ == name);
                if let Some(p) = find_key(keys, k, 0) {
                    assert(self.keys@[p] == keys[p]);
                }
                if let Some(p) = find_key(self.keys@, k, 0) {
                    if p < keys.len() {
                        assert(keys[p] == self.keys@[p]);
                    }
                }
            }
            assert(self@ =~= old(self)@.insert(name, said));
        }
    }

    /// Takes the item for a key out.
    pub fn remove(&mut self, key: &str) -> (r: Option<ConversationItem>)
        requires
            old(self).wf(),
        ensures
            final(self).wf(),
            final(self)@ == old(self)@.remove(key@),
            match r {
                Some(item) => old(self)@.dom().contains(key@) && item@ == old(self)@[key@],
                None => !old(self)@.dom().contains(key@),
            },
    {
        let ghost (keys, items) = (self.keys@, self.items@);
        proof {
            lemma_find_key(keys, key@, 0);
        }
        match self.find(key) {
            Some(i) => {
                self.keys.remove(i);
                let item = self.items.remove(i);
                proof {
                    assert forall|k: Seq<char>| true implies {
                        &&& #[trigger] self@.dom().contains(k) <==> (old(self)@.dom().contains(k)
                            && k != key@)
                        &&& self@.dom().contains(k) ==> self@[k] == old(self)@[k]
                    } by {
                        lemma_find_key(keys, k, 0);
                        lemma_find_key(self.keys@, k, 0);
                        if let Some(p) = find_key(keys, k, 0) {
                            if p < i {
                                assert(self.keys@[p] == keys[p]);
                            } else if p > i {
                                assert(self.keys@[p - 1] == keys[p]);
                            }
                        }
                        if let Some(p) = find_key(self.keys@, k, 0) {
                            let q = if p < i {
                                p
                            } else {
                                p + 1
                            };
                            assert(keys[q] == self.keys@[p]);
                            assert(items[q] == self.items@[p]);
                        }
                    }
                    assert(self@ =~= old(self)@.remove(key@));
                }
                Some(item)
            },
            None => {
                proof {
                    assert(self@ =~= old(self)@.remove(key@));
                }
                None
            },
        }
    }

    /// Removes all items.
    pub fn clear(&mut self)
        ensures
            final(self).wf(),
            final(self)@ == Map::<Seq<char>, ConversationItemView>::empty(),
    {
        self.keys.clear();
        self.items.clear();
        proof {
            assert(self@ =~= Map::<Seq<char>, ConversationItemView>::empty());
        }
    }
}

/// State that is shared between the processing of frames and the receiving of
/// server events.
#[derive(Debug)]
pub struct SharedRealtimeState {
    /// Whether the session has been configured (`session.updated` received).
    pub api_session_ready: bool,
    /// If true, a response is asked for once the session is ready.
    pub run_llm_when_api_session_ready: bool,
    /// The audio response that is being streamed.
    pub current_audio_response: Option<CurrentAudioResponse>,
    /// Pending function calls by call id.
    pub pending_function_calls: ItemMap,
    /// Tool call ids whose results have been sent to the service.
    pub completed_tool_calls: TextSet,
    /// Items that this side created (to avoid duplicating them).
    pub messages_added_manually: TextSet,
    /// Whether audio input is paused.
    pub audio_input_paused: bool,
    /// When processing started, for its measurement.
    pub processing_start: Option<u64>,
    /// The current context, for function call handlers.
    pub context: Option<Value>,
    /// Whether the first audio of the response has come.
    pub ttfb_reported: bool,
}

/// What a [`SharedRealtimeState`] says.
pub struct SharedModel {
    pub ready: bool,
    pub run_when_ready: bool,
    pub audio: Option<AudioResponseView>,
    pub pending: Map<Seq<char>, ConversationItemView>,
    pub completed: Set<Seq<char>>,
    pub manual: Set<Seq<char>>,
    pub audio_paused: bool,
    pub processing_start: Option<u64>,
    pub context: Option<Json>,
    pub ttfb_reported: bool,
}

impl View for SharedRealtimeState {
    type V = SharedModel;

    open spec fn view(&self) -> SharedModel {
        SharedModel {
            ready: self.api_session_ready,
            run_when_ready: self.run_llm_when_api_session_ready,
            audio: audio_response_opt(self.current_audio_response),
            pending: self.pending_function_calls@,
            completed: self.completed_tool_calls@,
            manual: self.messages_added_manually@,
            audio_paused: self.audio_input_paused,
            processing_start: self.processing_start,
            context: json_opt(self.context),
            ttfb_reported: self.ttfb_reported,
        }
    }
}

impl SharedModel {
    /// The state before a session.
    pub open spec fn fresh(audio_paused: bool) -> SharedModel {
        SharedModel {
            ready: false,
            run_when_ready: false,
            audio: None,
            pending: Map::empty(),
            completed: Set::empty(),
            manual: Set::empty(),
            audio_paused,
            processing_start: None,
            context: None,
            ttfb_reported: false,
        }
    }
}

impl SharedRealtimeState {
    /// The pending function calls are in order.
    pub open spec fn wf(&self) -> bool {
        self.pending_function_calls.wf()
    }

    pub fn new(audio_input_paused: bool) -> (r: Self)
        ensures
            r.wf(),
            r@ == SharedModel::fresh(audio_input_paused),
    {
        SharedRealtimeState {
            api_session_ready: false,
            run_llm_when_api_session_ready: false,
            current_audio_response: None,
            pending_function_calls: ItemMap::new(),
            completed_tool_calls: TextSet::new(),
            messages_added_manually: TextSet::new(),
            audio_input_paused,
            processing_start: None,
            context: None,
            ttfb_reported: false,
        }
    }
}

/// Audio is never cut off behind what has arrived, nor behind what there was
/// time to hear.
pub proof fn lemma_truncation_is_bounded(audio: AudioResponseView, now_ms: u64)
    ensures
        0 <= audio.heard_ms(now_ms) <= duration_ms(audio.total_size),
        now_ms >= audio.start_time_ms ==> audio.heard_ms(now_ms) <= now_ms - audio.start_time_ms,
        now_ms < audio.start_time_ms ==> audio.heard_ms(now_ms) == 0,
{
}

} // verus!
