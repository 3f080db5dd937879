//! What holds of the realtime service whatever frame comes.
use vstd::prelude::*;

use crate::frames::{Direction, FrameView, ImageOf};
use crate::json::{json_text, Json, JsonNumber};
use crate::runs::{gathered, lemma_gathered_concat, lemma_gathered_few};
use crate::services::openai::media::{base64_len, base64_of, jpeg_of};
use crate::services::openai::realtime::{
    context_properties, has_audio, host_of, initial_properties, only_if, response_properties,
    turn_detection_off, ClientEventView, RealtimeActionView, RealtimeCommitView,
};
use crate::services::openai::realtime_events::ConversationItemView;
use crate::services::openai::realtime_service::{messages_of, RealtimeModel};
use crate::services::openai::realtime_state::SharedModel;
use crate::services::openai::settings::{OpenAIRealtimeSettingsView, SessionPropertiesView};
use crate::services::openai::stream_laws::{list_member, member, text_member};
use crate::text::first_at;

verus! {

/// The events that an action sends to the server.
pub open spec fn event_sent(a: RealtimeActionView) -> Seq<ClientEventView> {
    match a {
        RealtimeActionView::Send(e) => seq![e],
        _ => Seq::empty(),
    }
}

/// The events that actions send to the server.
pub open spec fn events_sent(actions: Seq<RealtimeActionView>) -> Seq<ClientEventView> {
    gathered(actions, |a: RealtimeActionView| event_sent(a))
}

/// The frame that an action sends downstream.
pub open spec fn frame_sent(a: RealtimeActionView) -> Seq<FrameView> {
    match a {
        RealtimeActionView::SendDownstream(f) => seq![f],
        _ => Seq::empty(),
    }
}

/// The frames that actions send downstream.
pub open spec fn frames_sent(actions: Seq<RealtimeActionView>) -> Seq<FrameView> {
    gathered(actions, |a: RealtimeActionView| frame_sent(a))
}

/// The direction in which an action pushes the frame at hand on.
pub open spec fn pushed_on(a: RealtimeActionView) -> Seq<Direction> {
    match a {
        RealtimeActionView::Forward(d) => seq![d],
        _ => Seq::empty(),
    }
}

/// The directions in which actions push the frame at hand on.
pub open spec fn pushes(actions: Seq<RealtimeActionView>) -> Seq<Direction> {
    gathered(actions, |a: RealtimeActionView| pushed_on(a))
}

/// The changes that an action brings into effect.
pub open spec fn change_made(a: RealtimeActionView) -> Seq<RealtimeCommitView> {
    match a {
        RealtimeActionView::Commit(c) => seq![c],
        _ => Seq::empty(),
    }
}

/// The changes that actions bring into effect.
pub open spec fn changes_made(actions: Seq<RealtimeActionView>) -> Seq<RealtimeCommitView> {
    gathered(actions, |a: RealtimeActionView| change_made(a))
}

proof fn lemma_concat(a: Seq<RealtimeActionView>, b: Seq<RealtimeActionView>)
    ensures
        events_sent(a + b) == events_sent(a) + events_sent(b),
        frames_sent(a + b) == frames_sent(a) + frames_sent(b),
        pushes(a + b) == pushes(a) + pushes(b),
        changes_made(a + b) == changes_made(a) + changes_made(b),
{
    lemma_gathered_concat(a, b, |x: RealtimeActionView| event_sent(x));
    lemma_gathered_concat(a, b, |x: RealtimeActionView| frame_sent(x));
    lemma_gathered_concat(a, b, |x: RealtimeActionView| pushed_on(x));
    lemma_gathered_concat(a, b, |x: RealtimeActionView| change_made(x));
}

proof fn lemma_few(s: Seq<RealtimeActionView>)
    ensures
        s.len() == 0 ==> events_sent(s).len() == 0 && frames_sent(s).len() == 0 && pushes(s).len()
            == 0 && changes_made(s).len() == 0,
        s.len() == 1 ==> events_sent(s) == event_sent(s[0]) && frames_sent(s) == frame_sent(s[0])
            && pushes(s) == pushed_on(s[0]) && changes_made(s) == change_made(s[0]),
{
    lemma_gathered_few(s, |x: RealtimeActionView| event_sent(x));
    lemma_gathered_few(s, |x: RealtimeActionView| frame_sent(x));
    lemma_gathered_few(s, |x: RealtimeActionView| pushed_on(x));
    lemma_gathered_few(s, |x: RealtimeActionView| change_made(x));
}

/// Audio of the user is sent as it is, one event a frame, where there is a
/// connection and audio is not paused, and is not pushed on.
pub proof fn lemma_user_audio_is_sent(
    m: RealtimeModel,
    shared: SharedModel,
    frame: FrameView,
    direction: Direction,
    now: u64,
    now_ms: u64,
    result_ids: Seq<Seq<char>>,
    item_ids: Seq<Seq<char>>,
)
    requires
        frame is InputAudioRaw,
    ensures
        ({
            let (after, s, r) = m.handled(
                shared,
                frame,
                direction,
                now,
                now_ms,
                result_ids,
                item_ids,
            );
            &&& after == m && s == shared
            &&& r matches Ok(actions) && pushes(actions).len() == 0 && events_sent(actions)
                == if m.connected && !shared.audio_paused {
                seq![ClientEventView::AudioAppend(base64_of(frame->InputAudioRaw_0.audio))]
            } else {
                Seq::empty()
            }
        }),
{
    let (after, s, r) = m.handled(
        shared,
        frame,
        direction,
        now,
        now_ms,
        result_ids,
        item_ids,
    );
    lemma_few(r->Ok_0);
    if !(m.connected && !shared.audio_paused) {
        assert(events_sent(r->Ok_0) =~= Seq::empty());
    }
}

/// Every frame but audio and images is pushed on once, in its direction.
pub proof fn lemma_frames_are_pushed_on(
    m: RealtimeModel,
    shared: SharedModel,
    frame: FrameView,
    direction: Direction,
    now: u64,
    now_ms: u64,
    result_ids: Seq<Seq<char>>,
    item_ids: Seq<Seq<char>>,
)
    requires
        !(frame is InputAudioRaw || frame is InputImageRaw),
    ensures
        ({
            let r = m.processed(
                shared,
                frame,
                direction,
                now,
                now_ms,
                result_ids,
                item_ids,
            ).2;
            r matches Ok(actions) && pushes(actions) == seq![direction]
        }),
{
    let (after, s, r) = m.handled(
        shared,
        frame,
        direction,
        now,
        now_ms,
        result_ids,
        item_ids,
    );
    let forward = seq![RealtimeActionView::Forward(direction)];
    lemma_few(forward);
    let end = only_if(
        s.ttfb_reported && after.base.metrics_enabled && !m.asks_now(shared, frame, result_ids),
        RealtimeActionView::PushTtfb,
    );
    lemma_few(end);
    lemma_concat(r->Ok_0, end);
    match frame {
        FrameView::Start(f) => {
            let connect = seq![RealtimeActionView::Connect { url: m.url() }];
            lemma_few(connect);
            lemma_concat(forward, connect);
            assert(r->Ok_0 =~= forward + connect);
        },
        FrameView::End | FrameView::Cancel => {
            let actions = m.disconnected(shared).2;
            lemma_quiet(actions);
            lemma_concat(actions, forward);
        },
        FrameView::LLMContext(context) => {
            let actions = m.context_arrived(shared, context, result_ids, item_ids).2;
            lemma_context_pushes_nothing(m, shared, context, result_ids, item_ids);
            lemma_concat(actions, forward);
        },
        FrameView::Interruption => {
            let actions = m.interrupted(shared, now_ms).1;
            lemma_quiet(actions);
            lemma_concat(actions, forward);
        },
        FrameView::UserStoppedSpeaking => {
            let actions = if turn_detection_off(m.settings.session_properties) {
                m.sent(ClientEventView::AudioCommit)
            } else {
                Seq::empty()
            };
            lemma_few(actions);
            lemma_concat(actions, forward);
        },
        FrameView::LLMUpdateSettings(delta) => {
            let actions = m.settings_changed(delta).1;
            lemma_few(actions);
            lemma_concat(actions, forward);
        },
        FrameView::LLMSetTools(_) => {
            lemma_few(m.session_told());
            lemma_concat(m.session_told(), forward);
        },
        _ => {},
    }
    assert(pushes(r->Ok_0) =~= seq![direction]);
    assert(pushes(r->Ok_0 + end) =~= seq![direction]);
}

/// Actions that push nothing on push nothing on.
proof fn lemma_quiet(actions: Seq<RealtimeActionView>)
    requires
        forall|i: int| 0 <= i < actions.len() ==> !(#[trigger] actions[i] is Forward),
    ensures
        pushes(actions) == Seq::<Direction>::empty(),
    decreases actions.len(),
{
    if actions.len() > 0 {
        assert(!(actions[actions.len() - 1] is Forward));
        let front = actions.drop_last();
        assert forall|i: int| 0 <= i < front.len() implies !(#[trigger] front[i] is Forward) by {
            assert(!(actions[i] is Forward));
        }
        lemma_quiet(front);
        assert(pushes(actions) =~= Seq::empty());
    }
}

/// What the simpler frames do: a start connects and sets what is measured; the
/// end of the user's speech commits the audio where the server does not detect
/// turns by itself; the end of the bot's speech leaves no audio to cut off; new
/// tools make the session be told anew. Frames that are none of this service's
/// change nothing and send nothing.
pub proof fn lemma_simple_frames_do_this(
    m: RealtimeModel,
    shared: SharedModel,
    frame: FrameView,
    direction: Direction,
    now: u64,
    now_ms: u64,
    result_ids: Seq<Seq<char>>,
    item_ids: Seq<Seq<char>>,
)
    requires
        !(frame is End || frame is Cancel || frame is InputAudioRaw || frame is InputImageRaw
            || frame is LLMContext || frame is Interruption || frame is LLMUpdateSettings),
    ensures
        ({
            let (after, s, r) = m.handled(
                shared,
                frame,
                direction,
                now,
                now_ms,
                result_ids,
                item_ids,
            );
            let actions = r->Ok_0;
            let sent = events_sent(actions);
            &&& r is Ok
            &&& frames_sent(actions).len() == 0
            &&& s == (SharedModel {
                audio: if frame is BotStoppedSpeaking {
                    None
                } else {
                    shared.audio
                },
                ..shared
            })
            &&& match frame {
                FrameView::Start(f) => {
                    &&& sent.len() == 0
                    &&& actions.contains(RealtimeActionView::Connect { url: m.url() })
                    &&& after.base.metrics_enabled == f.enable_metrics
                    &&& after.base.usage_metrics_enabled == f.enable_usage_metrics
                    &&& after.base.report_only_initial_ttfb == f.report_only_initial_ttfb
                    &&& after == (RealtimeModel { base: after.base, ..m })
                },
                FrameView::UserStoppedSpeaking => {
                    &&& after == m
                    &&& sent == if m.connected && turn_detection_off(
                        m.settings.session_properties,
                    ) {
                        seq![ClientEventView::AudioCommit]
                    } else {
                        Seq::empty()
                    }
                },
                FrameView::LLMSetTools(_) => {
                    &&& after == m
                    &&& sent == if m.connected {
                        seq![
                            ClientEventView::SessionUpdate(
                                context_properties(m.settings, m.context),
                            ),
                        ]
                    } else {
                        Seq::empty()
                    }
                },
                _ => after == m && sent.len() == 0,
            }
        }),
{
    let (after, s, r) = m.handled(
        shared,
        frame,
        direction,
        now,
        now_ms,
        result_ids,
        item_ids,
    );
    let actions = r->Ok_0;
    lemma_gathered_few(actions, |x: RealtimeActionView| event_sent(x));
    lemma_gathered_few(actions, |x: RealtimeActionView| frame_sent(x));
    assert(actions.len() <= 2);
    match frame {
        FrameView::Start(_) => {
            assert(actions[1] == RealtimeActionView::Connect { url: m.url() });
        },
        FrameView::UserStoppedSpeaking => {
            if m.connected && turn_detection_off(m.settings.session_properties) {
                assert(events_sent(actions) =~= seq![ClientEventView::AudioCommit]);
            } else {
                assert(events_sent(actions) =~= Seq::empty());
            }
        },
        FrameView::LLMSetTools(_) => {
            if m.connected {
                assert(events_sent(actions) =~= event_sent(actions[0]));
            } else {
                assert(events_sent(actions) =~= Seq::empty());
            }
        },
        _ => {},
    }
}

/// Whether an action reports the time to the first byte.
pub open spec fn first_byte(a: RealtimeActionView) -> bool {
    a is PushTtfb
}

/// The time to the first byte is reported last, once audio of the response has
/// come, if measurements are wanted, and not with a frame that asks for a response
/// at once.
pub proof fn lemma_first_byte_is_reported(
    m: RealtimeModel,
    shared: SharedModel,
    frame: FrameView,
    direction: Direction,
    now: u64,
    now_ms: u64,
    result_ids: Seq<Seq<char>>,
    item_ids: Seq<Seq<char>>,
)
    ensures
        ({
            let (x, y, before) = m.handled(
                shared,
                frame,
                direction,
                now,
                now_ms,
                result_ids,
                item_ids,
            );
            let (after, s, r) = m.processed(
                shared,
                frame,
                direction,
                now,
                now_ms,
                result_ids,
                item_ids,
            );
            let asks = frame is LLMContext && y.ready && x.wants_response(m, shared, result_ids);
            &&& after == x && s == y
            &&& before is Err ==> r == before
            &&& before is Ok ==> r is Ok
            &&& before matches Ok(actions) ==> ({
                let all = r->Ok_0;
                if s.ttfb_reported && after.base.metrics_enabled && !asks {
                    all.len() == actions.len() + 1 && first_byte(all.last()) && all.drop_last()
                        == actions
                } else {
                    all == actions
                }
            })
        }),
{
    let before = m.handled(
        shared,
        frame,
        direction,
        now,
        now_ms,
        result_ids,
        item_ids,
    ).2;
    if let Ok(actions) = before {
        let all = m.processed(
            shared,
            frame,
            direction,
            now,
            now_ms,
            result_ids,
            item_ids,
        ).2->Ok_0;
        if all.len() > actions.len() {
            assert(all.drop_last() =~= actions);
        } else {
            assert(all =~= actions);
        }
    }
}

impl RealtimeModel {
    /// Whether a context makes the service, which it left in this state, want a
    /// response: the first one does, and any other that brings new results.
    pub open spec fn wants_response(
        self,
        before: RealtimeModel,
        shared: SharedModel,
        result_ids: Seq<Seq<char>>,
    ) -> bool {
        before.context is None || self.results_handled(
            shared.completed,
            messages_of(self.context),
            result_ids,
            true,
        ).sent
    }
}

/// Whether an item stands for a message: under the id at hand, with the role of
/// the message (the user's if it has none) and its text as the only part. Content
/// that is no text is left out.
pub open spec fn stands_for(item: ConversationItemView, message: Json, id: Seq<char>) -> bool {
    let role = match member(message, "role"@) {
        Some(Json::Text(t)) => t,
        _ => "user"@,
    };
    &&& item.id == id
    &&& item.item_type == "message"@
    &&& item.role == Some(role)
    &&& match member(message, "content"@) {
        Some(Json::Text(text)) => {
            &&& item.content matches Some(parts) && parts.len() == 1 && parts[0].text == Some(text)
                && parts[0].content_type == (if role == "user"@ {
                "input_text"@
            } else {
                "text"@
            }) && parts[0].audio is None && parts[0].transcript is None && parts[0].image_url
                is None && parts[0].detail is None
        },
        _ => item.content is None,
    }
    &&& item.call_id is None && item.name is None && item.arguments is None && item.output is None
}

/// A conversation is set up by an item for every message, in their order, each
/// known as an own one beforehand; without a connection the items are known and
/// not sent.
pub proof fn lemma_every_message_gets_an_item(
    m: RealtimeModel,
    messages: Seq<Json>,
    ids: Seq<Seq<char>>,
)
    requires
        messages.len() <= ids.len(),
    ensures
        ({
            let actions = m.items_created(messages, ids);
            let sent = events_sent(actions);
            let known = changes_made(actions);
            &&& sent.len() == if m.connected {
                messages.len()
            } else {
                0
            }
            &&& forall|i: int|
                0 <= i < sent.len() ==> ((#[trigger] sent[i]) matches ClientEventView::ItemCreate(
                    item,
                ) && stands_for(item, messages[i], ids[i]))
            &&& known.len() == messages.len()
            &&& forall|i: int|
                0 <= i < known.len() ==> (#[trigger] known[i]) == RealtimeCommitView::MarkManual(
                    ids[i],
                )
            &&& pushes(actions).len() == 0
            &&& frames_sent(actions).len() == 0
        }),
    decreases messages.len(),
{
    if messages.len() == 0 {
        lemma_few(m.items_created(messages, ids));
    } else {
        let front = messages.drop_last();
        let n = messages.len() - 1;
        lemma_every_message_gets_an_item(m, front, ids);
        let first = m.items_created(front, ids);
        let mark = seq![RealtimeActionView::Commit(RealtimeCommitView::MarkManual(ids[n]))];
        let item = crate::services::openai::realtime::message_item(messages[n], ids[n]);
        let sent = m.sent(ClientEventView::ItemCreate(item));
        lemma_few(mark);
        lemma_few(sent);
        lemma_concat(first, mark);
        lemma_concat(first + mark, sent);
        assert(stands_for(item, messages[n], ids[n]));
        let all = events_sent(m.items_created(messages, ids));
        let before = events_sent(first);
        assert(m.connected ==> all == before + Seq::<ClientEventView>::empty() + seq![
            ClientEventView::ItemCreate(item),
        ]);
        assert forall|i: int| 0 <= i < all.len() implies ((#[trigger] all[i])
            matches ClientEventView::ItemCreate(x) && stands_for(x, messages[i], ids[i])) by {
            if i < before.len() {
                assert(all[i] == before[i]);
                assert(front[i] == messages[i]);
            }
        }
    }
}

/// The places of the messages that bring new results: those with the id of a call
/// that is neither completed nor told of by a message before them.
pub open spec fn new_results(completed: Set<Seq<char>>, messages: Seq<Json>) -> Seq<int>
    decreases messages.len(),
{
    if messages.len() == 0 {
        Seq::empty()
    } else {
        let front = messages.drop_last();
        let n = messages.len() - 1;
        match member(messages[n], "tool_call_id"@) {
            Some(Json::Text(id)) => if completed.contains(id) || told_of(front, id) {
                new_results(completed, front)
            } else {
                new_results(completed, front).push(n)
            },
            _ => new_results(completed, front),
        }
    }
}

/// Whether a message tells of a call.
pub open spec fn told_of(messages: Seq<Json>, id: Seq<char>) -> bool {
    exists|i: int|
        0 <= i < messages.len() && member(#[trigger] messages[i], "tool_call_id"@) == Some(
            Json::Text(id),
        )
}

/// Whether an event brings the result in a message to the server: under the id at
/// hand, for the call that the message names, with the text of its content, or
/// the JSON text of content that is no text.
pub open spec fn brings_result(e: ClientEventView, message: Json, id: Seq<char>) -> bool {
    e matches ClientEventView::ItemCreate(item) && item.id == id && item.item_type
        == "function_call_output"@ && item.call_id == Some(text_member(message, "tool_call_id"@))
        && item.role is None && item.content is None && item.output == Some(
        match member(message, "content"@) {
            Some(Json::Text(t)) => t,
            Some(j) => json_text(j),
            None => json_text(Json::Null),
        },
    )
}

/// Each new result in the messages is completed, once and in order, and sent
/// where results are to be sent and there is a connection.
pub proof fn lemma_new_results_are_sent(
    m: RealtimeModel,
    completed: Set<Seq<char>>,
    messages: Seq<Json>,
    ids: Seq<Seq<char>>,
    send_new: bool,
)
    requires
        messages.len() <= ids.len(),
    ensures
        ({
            let r = m.results_handled(completed, messages, ids, send_new);
            let places = new_results(completed, messages);
            let sent = events_sent(r.actions);
            let made = changes_made(r.actions);
            &&& r.sent == (send_new && places.len() > 0)
            &&& forall|id: Seq<char>| #[trigger]
                r.completed.contains(id) <==> completed.contains(id) || told_of(messages, id)
            &&& made.len() == places.len()
            &&& forall|i: int|
                0 <= i < made.len() ==> (#[trigger] made[i]) == RealtimeCommitView::MarkCompleted(
                    text_member(messages[places[i]], "tool_call_id"@),
                )
            &&& sent.len() == if send_new && m.connected {
                places.len()
            } else {
                0
            }
            &&& forall|i: int|
                0 <= i < sent.len() ==> brings_result(
                    #[trigger] sent[i],
                    messages[places[i]],
                    ids[places[i]],
                )
            &&& forall|i: int|
                0 <= i < places.len() ==> 0 <= (#[trigger] places[i]) < messages.len()
            &&& pushes(r.actions).len() == 0
            &&& frames_sent(r.actions).len() == 0
        }),
    decreases messages.len(),
{
    let r = m.results_handled(completed, messages, ids, send_new);
    if messages.len() == 0 {
        lemma_few(r.actions);
    } else {
        let front = messages.drop_last();
        let n = messages.len() - 1;
        lemma_new_results_are_sent(m, completed, front, ids, send_new);
        let before = m.results_handled(completed, front, ids, send_new);
        assert forall|id: Seq<char>| told_of(messages, id) == (told_of(front, id) || member(
            messages[n],
            "tool_call_id"@,
        ) == Some(Json::Text(id))) by {
            if told_of(front, id) {
                let i = choose|i: int|
                    0 <= i < front.len() && member(#[trigger] front[i], "tool_call_id"@) == Some(
                        Json::Text(id),
                    );
                assert(member(messages[i], "tool_call_id"@) == Some(Json::Text(id)));
            }
            if told_of(messages, id) {
                let i = choose|i: int|
                    0 <= i < messages.len() && member(#[trigger] messages[i], "tool_call_id"@)
                        == Some(Json::Text(id));
                if i < n {
                    assert(member(front[i], "tool_call_id"@) == Some(Json::Text(id)));
                }
            }
        }
        let old_places = new_results(completed, front);
        assert(forall|i: int|
            0 <= i < old_places.len() ==> messages[#[trigger] old_places[i]]
                == front[old_places[i]]);
        match messages[n].text_at("tool_call_id"@) {
            Some(call_id) => {
                assert(member(messages[n], "tool_call_id"@) == Some(Json::Text(call_id)));
                if !before.completed.contains(call_id) {
                    let content = match messages[n].get("content"@) {
                        Some(c) => c,
                        None => Json::Null,
                    };
                    let event = ClientEventView::ItemCreate(
                        crate::services::openai::realtime::output_item(ids[n], call_id, content),
                    );
                    let sent = if send_new {
                        m.sent(event)
                    } else {
                        Seq::empty()
                    };
                    let mark = seq![
                        RealtimeActionView::Commit(RealtimeCommitView::MarkCompleted(call_id)),
                    ];
                    lemma_few(sent);
                    lemma_few(mark);
                    lemma_concat(before.actions, sent);
                    lemma_concat(before.actions + sent, mark);
                    assert(brings_result(event, messages[n], ids[n]));
                    let places = new_results(completed, messages);
                    assert(places == old_places.push(n));
                    let all = events_sent(r.actions);
                    let earlier = events_sent(before.actions);
                    assert forall|i: int| 0 <= i < all.len() implies brings_result(
                        #[trigger] all[i],
                        messages[places[i]],
                        ids[places[i]],
                    ) by {
                        if i < earlier.len() {
                            assert(all[i] == earlier[i]);
                            assert(places[i] == old_places[i]);
                        }
                    }
                    let made = changes_made(r.actions);
                    let made_before = changes_made(before.actions);
                    assert forall|i: int| 0 <= i < made.len() implies (#[trigger] made[i])
                        == RealtimeCommitView::MarkCompleted(
                        text_member(messages[places[i]], "tool_call_id"@),
                    ) by {
                        if i < made_before.len() {
                            assert(made[i] == made_before[i]);
                            assert(places[i] == old_places[i]);
                        }
                    }
                }
            },
            None => {},
        }
    }
}

/// A response is asked for once, where there is a connection, and told of
/// downstream before; a conversation that is not set up is set up first, with the
/// session told of its properties behind the items.
pub proof fn lemma_response_is_asked_for(m: RealtimeModel, ids: Seq<Seq<char>>)
    requires
        messages_of(m.context).len() <= ids.len(),
    ensures
        ({
            let actions = m.response_asked(ids);
            let sent = events_sent(actions);
            let items = if m.needs_setup {
                messages_of(m.context).len()
            } else {
                0
            };
            &&& frames_sent(actions) == seq![FrameView::LLMFullResponseStart { skip_tts: None }]
            &&& pushes(actions).len() == 0
            &&& !m.connected ==> sent.len() == 0
            &&& m.connected ==> {
                &&& sent.len() == items + if m.needs_setup {
                    2nat
                } else {
                    1
                }
                &&& sent.last() matches ClientEventView::ResponseCreate(Some(p))
                    && p.output_modalities == Some(
                    match m.settings.session_properties.output_modalities {
                        Some(list) => list,
                        None => seq!["text"@, "audio"@],
                    },
                ) && p.instructions is None && p.tools is None
                &&& m.needs_setup ==> sent[items as int] == ClientEventView::SessionUpdate(
                    context_properties(m.settings, m.context),
                )
                &&& forall|i: int|
                    0 <= i < items ==> ((#[trigger] sent[i]) matches ClientEventView::ItemCreate(
                        item,
                    ) && stands_for(item, messages_of(m.context)[i], ids[i]))
            }
            &&& changes_made(actions).contains(RealtimeCommitView::FinishSetup) == m.needs_setup
            &&& changes_made(actions).contains(RealtimeCommitView::StartMetrics)
                == m.base.metrics_enabled
        }),
{
    let actions = m.response_asked(ids);
    let messages = messages_of(m.context);
    lemma_every_message_gets_an_item(m, messages, ids);
    let created = m.items_created(messages, ids);
    let told = m.session_told();
    let finish = seq![RealtimeActionView::Commit(RealtimeCommitView::FinishSetup)];
    lemma_few(told);
    lemma_few(finish);
    lemma_concat(created, told);
    lemma_concat(created + told, finish);
    let setup = if m.needs_setup {
        m.set_up(ids)
    } else {
        Seq::empty()
    };
    lemma_few(Seq::empty());
    let start = seq![
        RealtimeActionView::SendDownstream(FrameView::LLMFullResponseStart { skip_tts: None }),
    ];
    lemma_few(start);
    lemma_concat(setup, start);
    let one = seq![RealtimeActionView::StartProcessing];
    let two = seq![RealtimeActionView::StartTtfb];
    let three = seq![RealtimeActionView::Commit(RealtimeCommitView::StartMetrics)];
    lemma_few(one);
    lemma_few(two);
    lemma_few(three);
    lemma_concat(one, two);
    lemma_concat(one + two, three);
    let measured = if m.base.metrics_enabled {
        one + two + three
    } else {
        Seq::empty()
    };
    assert(one + two + three =~= seq![
        RealtimeActionView::StartProcessing,
        RealtimeActionView::StartTtfb,
        RealtimeActionView::Commit(RealtimeCommitView::StartMetrics),
    ]);
    lemma_concat(setup + start, measured);
    let ask = m.sent(
        ClientEventView::ResponseCreate(Some(response_properties(m.settings.session_properties))),
    );
    lemma_few(ask);
    lemma_concat(setup + start + measured, ask);
    assert(actions =~= setup + start + measured + ask);
    assert(frames_sent(actions) =~= seq![FrameView::LLMFullResponseStart { skip_tts: None }]);
    let made = changes_made(actions);
    let known = changes_made(created);
    if m.needs_setup {
        assert(made[known.len() as int] == RealtimeCommitView::FinishSetup);
    }
    if m.base.metrics_enabled {
        assert(made.last() == RealtimeCommitView::StartMetrics);
    }
    if m.connected {
        let sent = events_sent(actions);
        let items = events_sent(created);
        if m.needs_setup {
            assert forall|i: int| 0 <= i < items.len() implies ((#[trigger] sent[i])
                matches ClientEventView::ItemCreate(item) && stands_for(
                item,
                messages[i],
                ids[i],
            )) by {
                assert(sent[i] == items[i]);
            }
        }
    }
}

proof fn lemma_context_pushes_nothing(
    m: RealtimeModel,
    shared: SharedModel,
    context: Json,
    result_ids: Seq<Seq<char>>,
    item_ids: Seq<Seq<char>>,
)
    ensures
        pushes(m.context_arrived(shared, context, result_ids, item_ids).2).len() == 0,
{
    let after = RealtimeModel { context: Some(context), ..m };
    let results = after.results_handled(
        shared.completed,
        messages_of(after.context),
        result_ids,
        m.context is Some,
    );
    lemma_results_push_nothing(
        after,
        shared.completed,
        messages_of(after.context),
        result_ids,
        m.context is Some,
    );
    let asked = after.response_wanted(
        SharedModel { context: Some(context), ..shared },
        item_ids,
    ).1;
    lemma_concat(results.actions, asked);
    lemma_items_push_nothing(after, messages_of(after.context), item_ids);
    let created = after.items_created(messages_of(after.context), item_ids);
    lemma_quiet_holds(created);
    lemma_quiet(asked);
}

proof fn lemma_quiet_holds(actions: Seq<RealtimeActionView>)
    requires
        pushes(actions).len() == 0,
    ensures
        forall|i: int| 0 <= i < actions.len() ==> !(#[trigger] actions[i] is Forward),
    decreases actions.len(),
{
    if actions.len() > 0 {
        lemma_quiet_holds(actions.drop_last());
        assert forall|i: int| 0 <= i < actions.len() implies !(#[trigger] actions[i] is Forward) by {
            if i < actions.len() - 1 {
                assert(!(actions.drop_last()[i] is Forward));
            }
        }
    }
}

proof fn lemma_items_push_nothing(m: RealtimeModel, messages: Seq<Json>, ids: Seq<Seq<char>>)
    ensures
        pushes(m.items_created(messages, ids)).len() == 0,
    decreases messages.len(),
{
    if messages.len() == 0 {
        lemma_few(m.items_created(messages, ids));
    } else {
        let n = messages.len() - 1;
        lemma_items_push_nothing(m, messages.drop_last(), ids);
        let first = m.items_created(messages.drop_last(), ids);
        let mark = seq![RealtimeActionView::Commit(RealtimeCommitView::MarkManual(ids[n]))];
        let sent = m.sent(
            ClientEventView::ItemCreate(
                crate::services::openai::realtime::message_item(messages[n], ids[n]),
            ),
        );
        lemma_few(mark);
        lemma_few(sent);
        lemma_concat(first, mark);
        lemma_concat(first + mark, sent);
    }
}

proof fn lemma_results_push_nothing(
    m: RealtimeModel,
    completed: Set<Seq<char>>,
    messages: Seq<Json>,
    ids: Seq<Seq<char>>,
    send_new: bool,
)
    ensures
        pushes(m.results_handled(completed, messages, ids, send_new).actions).len() == 0,
    decreases messages.len(),
{
    let r = m.results_handled(completed, messages, ids, send_new);
    if messages.len() == 0 {
        lemma_few(r.actions);
    } else {
        lemma_results_push_nothing(m, completed, messages.drop_last(), ids, send_new);
        let before = m.results_handled(completed, messages.drop_last(), ids, send_new);
        let more = r.actions.skip(before.actions.len() as int);
        assert(r.actions =~= before.actions + more);
        lemma_quiet(more);
        lemma_concat(before.actions, more);
    }
}

/// A context is kept, and seen by function calls from then on. The first asks for
/// a response and sends none of the results in it; any other sends the new ones,
/// and asks for a response exactly if there are some. In a session that is not
/// ready the response waits.
pub proof fn lemma_contexts_are_answered(
    m: RealtimeModel,
    shared: SharedModel,
    context: Json,
    result_ids: Seq<Seq<char>>,
    item_ids: Seq<Seq<char>>,
)
    requires
        list_member(context, "messages"@).len() <= result_ids.len(),
        list_member(context, "messages"@).len() <= item_ids.len(),
    ensures
        ({
            let (after, s, actions) = m.context_arrived(shared, context, result_ids, item_ids);
            let messages = list_member(context, "messages"@);
            let fresh = new_results(shared.completed, messages).len() > 0;
            let wanted = m.context is None || fresh;
            &&& after.context == Some(context)
            &&& s.context == Some(context)
            &&& s.completed == shared.completed
            &&& s.run_when_ready == (shared.run_when_ready || (wanted && !shared.ready))
            &&& frames_sent(actions).len() == if wanted && shared.ready {
                1nat
            } else {
                0
            }
            &&& !m.connected ==> events_sent(actions).len() == 0
            &&& !(wanted && shared.ready) ==> events_sent(actions).len() == if m.context is Some
                && m.connected {
                new_results(shared.completed, messages).len()
            } else {
                0
            }
        }),
{
    let after = RealtimeModel { context: Some(context), ..m };
    let messages = messages_of(after.context);
    assert(messages =~= list_member(context, "messages"@));
    lemma_new_results_are_sent(
        after,
        shared.completed,
        messages,
        result_ids,
        m.context is Some,
    );
    let results = after.results_handled(
        shared.completed,
        messages,
        result_ids,
        m.context is Some,
    );
    let asked = after.response_wanted(
        SharedModel { context: Some(context), ..shared },
        item_ids,
    ).1;
    lemma_response_is_asked_for(after, item_ids);
    lemma_few(Seq::empty());
    lemma_concat(results.actions, asked);
}

/// An interruption: where the server does not detect turns by itself, the audio
/// buffer is cleared and the response cancelled; audio that is being heard is cut
/// off; the response ends downstream, and its speech with it where responses have
/// audio.
pub proof fn lemma_interruption_ends_the_response(
    m: RealtimeModel,
    shared: SharedModel,
    now_ms: u64,
)
    ensures
        ({
            let (after, actions) = m.interrupted(shared, now_ms);
            let sent = events_sent(actions);
            let off = turn_detection_off(m.settings.session_properties);
            let n: int = if off {
                2
            } else {
                0
            };
            &&& after == (SharedModel { audio: None, ..shared })
            &&& !m.connected ==> sent.len() == 0
            &&& m.connected ==> {
                &&& sent.len() == n + if shared.audio is Some {
                    1int
                } else {
                    0
                }
                &&& off ==> sent[0] == ClientEventView::AudioClear && sent[1]
                    == ClientEventView::ResponseCancel
                &&& shared.audio matches Some(audio) ==> (sent[n]
                    matches ClientEventView::ItemTruncate { item_id, content_index, audio_end_ms }
                    && item_id == audio.item_id && content_index == audio.content_index && ({
                    let passed = if now_ms >= audio.start_time_ms {
                        now_ms - audio.start_time_ms
                    } else {
                        0
                    };
                    &&& audio_end_ms <= passed
                    &&& 48 * audio_end_ms <= audio.total_size
                    &&& audio_end_ms == passed || audio.total_size < 48 * (audio_end_ms + 1)
                }))
            }
            &&& frames_sent(actions) == if has_audio(m.settings.session_properties) {
                seq![
                    FrameView::LLMFullResponseEnd { skip_tts: None },
                    FrameView::TTSStopped { context_id: None },
                ]
            } else {
                seq![FrameView::LLMFullResponseEnd { skip_tts: None }]
            }
        }),
{
    let props = m.settings.session_properties;
    let actions = m.interrupted(shared, now_ms).1;
    let clear = m.sent(ClientEventView::AudioClear);
    let cancel = m.sent(ClientEventView::ResponseCancel);
    lemma_few(clear);
    lemma_few(cancel);
    lemma_concat(clear, cancel);
    lemma_few(Seq::empty());
    let first = if turn_detection_off(props) {
        clear + cancel
    } else {
        Seq::empty()
    };
    let cut = match shared.audio {
        Some(audio) => m.sent(
            ClientEventView::ItemTruncate {
                item_id: audio.item_id,
                content_index: audio.content_index,
                audio_end_ms: audio.heard_ms(now_ms) as u64,
            },
        ),
        None => Seq::empty(),
    };
    lemma_few(cut);
    lemma_concat(first, cut);
    let reset = seq![RealtimeActionView::ResetMetrics];
    let end = seq![
        RealtimeActionView::SendDownstream(FrameView::LLMFullResponseEnd { skip_tts: None }),
    ];
    lemma_few(reset);
    lemma_few(end);
    lemma_concat(reset, end);
    assert(reset + end =~= seq![
        RealtimeActionView::ResetMetrics,
        RealtimeActionView::SendDownstream(FrameView::LLMFullResponseEnd { skip_tts: None }),
    ]);
    lemma_concat(first + cut, reset + end);
    let stop = only_if(
        has_audio(props),
        RealtimeActionView::SendDownstream(FrameView::TTSStopped { context_id: None }),
    );
    lemma_few(stop);
    lemma_concat(first + cut + (reset + end), stop);
    assert(actions == first + cut + (reset + end) + stop);
    assert(frames_sent(actions) =~= frames_sent(end) + frames_sent(stop));
    if has_audio(props) {
        assert(frames_sent(end) + frames_sent(stop) =~= seq![
            FrameView::LLMFullResponseEnd { skip_tts: None },
            FrameView::TTSStopped { context_id: None },
        ]);
    } else {
        assert(frames_sent(end) + frames_sent(stop) =~= seq![
            FrameView::LLMFullResponseEnd { skip_tts: None },
        ]);
    }
    if let Some(audio) = shared.audio {
        let n = audio.total_size as int;
        assert((n / 2) * 1000 / 24000 == n / 48);
    }
}

/// The server detects turns by itself unless that is explicitly switched off, and
/// responses have audio unless other modalities are given.
pub proof fn lemma_defaults_of_a_session(p: SessionPropertiesView)
    ensures
        turn_detection_off(p) <==> p.audio is Some && p.audio->0.input is Some
            && p.audio->0.input->0.turn_detection is Some
            && p.audio->0.input->0.turn_detection->0 is None,
        p.output_modalities is None ==> has_audio(p),
        p.output_modalities matches Some(list) ==> (has_audio(p) <==> exists|i: int|
            0 <= i < list.len() && #[trigger] list[i] == "audio"@),
{
}

/// Video frames are at least a second apart: within a second of the last one sent
/// a frame changes nothing, and any other is sent, as an image of the user with
/// the detail that is set, unless it cannot be encoded.
pub proof fn lemma_video_frames_are_a_second_apart(
    m: RealtimeModel,
    image: ImageOf<Seq<char>, Seq<u8>>,
    now: u64,
    id: Seq<char>,
)
    ensures
        ({
            let (after, r) = m.video_arrived(image, now, id);
            match m.last_video {
                Some(t) if now < t + 1_000_000_000 => after == m && (r matches Ok(actions)
                    && actions.len() == 0),
                _ => {
                    &&& after == (RealtimeModel { last_video: Some(now), ..m })
                    &&& r is Ok <==> (jpeg_of(image) matches Ok(jpeg) && base64_len(jpeg.len())
                        <= isize::MAX)
                    &&& r matches Ok(actions) ==> {
                        let sent = events_sent(actions);
                        &&& sent.len() == if m.connected {
                            1nat
                        } else {
                            0
                        }
                        &&& m.connected ==> (sent[0] matches ClientEventView::ItemCreate(item)
                            && item.id == id && item.item_type == "message"@ && item.role == Some(
                            "user"@,
                        ) && (item.content matches Some(parts) && parts.len() == 1
                            && parts[0].content_type == "input_image"@ && parts[0].detail == Some(
                            m.video_detail,
                        ) && parts[0].image_url == Some(
                            "data:image/jpeg;base64,"@ + base64_of(jpeg_of(image)->Ok_0),
                        ) && parts[0].text is None))
                    }
                },
            }
        }),
{
    if let Ok(actions) = m.video_arrived(image, now, id).1 {
        lemma_few(actions);
    }
}

/// What a session is told first: everything that is set for it, with the
/// system instruction of the settings where it has no instructions of its own.
/// With a context, the context's instruction and its tools, if it has any, come
/// before those.
pub proof fn lemma_session_properties_by_rank(
    settings: OpenAIRealtimeSettingsView,
    context: Option<Json>,
)
    ensures
        ({
            let own = settings.session_properties;
            let first = initial_properties(settings);
            let with = context_properties(settings, context);
            &&& own.instructions is Some ==> first.instructions == own.instructions
            &&& own.instructions is None ==> first.instructions == settings.base.system_instruction
            &&& first == (SessionPropertiesView { instructions: first.instructions, ..own })
            &&& context is None ==> with == first
            &&& context matches Some(c) ==> {
                &&& member(c, "system_instruction"@) matches Some(Json::Text(t))
                    ==> with.instructions == Some(t)
                &&& !(member(c, "system_instruction"@) matches Some(Json::Text(_)))
                    ==> with.instructions == first.instructions
                &&& list_member(c, "tools"@).len() > 0 ==> with.tools == member(c, "tools"@)
                &&& list_member(c, "tools"@).len() == 0 ==> with.tools == own.tools
            }
            &&& with == (SessionPropertiesView {
                instructions: with.instructions,
                tools: with.tools,
                ..own
            })
        }),
{
}

/// New session properties take the place of the old ones if they can be read, and
/// the session is told; other settings leave them, and tell it nothing.
pub proof fn lemma_new_properties_are_told(m: RealtimeModel, delta: Map<Seq<char>, Json>)
    ensures
        ({
            let (after, actions) = m.settings_changed(delta);
            let sent = events_sent(actions);
            let new = if delta.dom().contains("session_properties"@) {
                SessionPropertiesView::read(delta["session_properties"@])
            } else {
                None
            };
            &&& new matches Some(p) ==> {
                &&& after.settings.session_properties == p
                &&& sent == if m.connected {
                    seq![
                        ClientEventView::SessionUpdate(
                            context_properties(after.settings, m.context),
                        ),
                    ]
                } else {
                    Seq::empty()
                }
            }
            &&& new is None ==> after.settings.session_properties == m.settings.session_properties
                && sent.len() == 0
            &&& after.context == m.context && after.connected == m.connected && after.needs_setup
                == m.needs_setup
        }),
{
    let (after, actions) = m.settings_changed(delta);
    lemma_few(actions);
    if actions.len() == 0 {
        assert(events_sent(actions) =~= Seq::empty());
    }
}

/// The end of all, and a cancellation, close the connection if there is one and
/// leave a session that can be opened anew: not ready, with no calls and no audio.
pub proof fn lemma_disconnection_forgets_the_session(m: RealtimeModel, shared: SharedModel)
    ensures
        ({
            let (after, s, actions) = m.disconnected(shared);
            &&& !after.connected
            &&& after == (RealtimeModel { connected: false, ..m })
            &&& actions.contains(RealtimeActionView::Disconnect) == m.connected
            &&& !s.ready && s.audio is None
            &&& forall|id: Seq<char>|
                !(#[trigger] s.pending.dom().contains(id)) && !s.completed.contains(id)
            &&& s.manual == shared.manual && s.context == shared.context && s.run_when_ready
                == shared.run_when_ready
        }),
{
    let actions = m.disconnected(shared).2;
    assert(m.connected ==> actions[1] == RealtimeActionView::Disconnect);
}

/// The address to connect to names the model that is set, or the default one.
pub proof fn lemma_address_names_the_model(m: RealtimeModel)
    ensures
        m.settings.base.model matches Some(name) ==> m.url() == m.base_url + "?model="@ + name,
        m.settings.base.model is None ==> m.url() == m.base_url + "?model="@
            + "gpt-4o-realtime-preview"@,
{
}

/// What changes take effect.
pub proof fn lemma_changes_take_effect(
    m: RealtimeModel,
    shared: SharedModel,
    id: Seq<char>,
    now: u64,
)
    ensures
        m.committed(shared, RealtimeCommitView::MarkManual(id), now).1.manual.contains(id),
        m.committed(shared, RealtimeCommitView::MarkCompleted(id), now).1.completed.contains(id),
        !m.committed(shared, RealtimeCommitView::FinishSetup, now).0.needs_setup,
        m.committed(shared, RealtimeCommitView::StartMetrics, now).1.processing_start == Some(now),
        !m.committed(shared, RealtimeCommitView::StartMetrics, now).1.ttfb_reported,
{
}

proof fn lemma_first_slash(host: Seq<char>, rest: Seq<char>, from: int)
    requires
        0 <= from <= host.len(),
        forall|i: int| 0 <= i < host.len() ==> #[trigger] host[i] != '/',
        rest.len() == 0 || rest[0] == '/',
    ensures
        first_at(host + rest, '/', from) == if rest.len() == 0 {
            None
        } else {
            Some(host.len() as int)
        },
    decreases host.len() - from,
{
    if from < host.len() {
        assert((host + rest)[from] == host[from]);
        lemma_first_slash(host, rest, from + 1);
    }
}

/// The host of an address is what stands between the scheme, `wss` or `ws`, and
/// the first slash behind it, or the end. An address of another scheme has none.
pub proof fn lemma_host_stands_before_the_path(
    host: Seq<char>,
    rest: Seq<char>,
    other: Seq<char>,
)
    requires
        forall|i: int| 0 <= i < host.len() ==> #[trigger] host[i] != '/',
        rest.len() == 0 || rest[0] == '/',
        !"wss://"@.is_prefix_of(other) && !"ws://"@.is_prefix_of(other),
    ensures
        host_of(other) is None,
        host_of("wss://"@ + host + rest) == Some(host),
        host_of("ws://"@ + host + rest) == Some(host),
{
    reveal_strlit("wss://");
    reveal_strlit("ws://");
    lemma_first_slash(host, rest, 0);
    let all = host + rest;
    assert(("wss://"@ + host + rest).skip(6) =~= all);
    assert(("ws://"@ + host + rest).skip(5) =~= all);
    assert("wss://"@.is_prefix_of("wss://"@ + host + rest));
    assert("ws://"@.is_prefix_of("ws://"@ + host + rest));
    assert(!"wss://"@.is_prefix_of("ws://"@ + host + rest)) by {
        if "wss://"@.is_prefix_of("ws://"@ + host + rest) {
            assert(("ws://"@ + host + rest).take(6)[2] == "wss://"@[2]);
        }
    }
    assert(all.take(host.len() as int) =~= host);
    if rest.len() == 0 {
        assert(all =~= host);
    }
}

/// The length and the first letter of a key. No two keys of one event agree in
/// them.
spec fn head(key: Seq<char>) -> (nat, char) {
    (key.len(), key[0])
}

proof fn lemma_event_keys()
    ensures
        head("type"@) == (4nat, 't'),
        head("event_id"@) == (8nat, 'e'),
        head("session"@) == (7nat, 's'),
        head("audio"@) == (5nat, 'a'),
        head("response"@) == (8nat, 'r'),
        head("item"@) == (4nat, 'i'),
        head("item_id"@) == (7nat, 'i'),
        head("content_index"@) == (13nat, 'c'),
        head("audio_end_ms"@) == (12nat, 'a'),
{
    reveal_strlit("type");
    reveal_strlit("event_id");
    reveal_strlit("session");
    reveal_strlit("audio");
    reveal_strlit("response");
    reveal_strlit("item");
    reveal_strlit("item_id");
    reveal_strlit("content_index");
    reveal_strlit("audio_end_ms");
}

/// The type that an event names, and the members that it is written with.
pub proof fn lemma_events_are_written(e: ClientEventView, id: Seq<char>)
    ensures
        ({
            let j = e.json(id);
            &&& member(j, "event_id"@) == Some(Json::Text(id))
            &&& match e {
                ClientEventView::SessionUpdate(p) => {
                    &&& text_member(j, "type"@) == "session.update"@
                    &&& member(j, "session"@) == Some(p.json())
                },
                ClientEventView::AudioAppend(a) => {
                    &&& text_member(j, "type"@) == "input_audio_buffer.append"@
                    &&& member(j, "audio"@) == Some(Json::Text(a))
                },
                ClientEventView::AudioCommit => text_member(j, "type"@)
                    == "input_audio_buffer.commit"@,
                ClientEventView::AudioClear => text_member(j, "type"@)
                    == "input_audio_buffer.clear"@,
                ClientEventView::ResponseCreate(p) => {
                    &&& text_member(j, "type"@) == "response.create"@
                    &&& p matches Some(x) ==> member(j, "response"@) == Some(x.json())
                    &&& p is None ==> member(j, "response"@) is None
                },
                ClientEventView::ResponseCancel => text_member(j, "type"@) == "response.cancel"@,
                ClientEventView::ItemCreate(i) => {
                    &&& text_member(j, "type"@) == "conversation.item.create"@
                    &&& member(j, "item"@) == Some(i.json())
                },
                ClientEventView::ItemTruncate { item_id, content_index, audio_end_ms } => {
                    &&& text_member(j, "type"@) == "conversation.item.truncate"@
                    &&& member(j, "item_id"@) == Some(Json::Text(item_id))
                    &&& member(j, "content_index"@) == Some(
                        Json::Number(JsonNumber::Unsigned(content_index as u64)),
                    )
                    &&& member(j, "audio_end_ms"@) == Some(
                        Json::Number(JsonNumber::Unsigned(audio_end_ms)),
                    )
                },
            }
        }),
{
    lemma_event_keys();
}

} // verus!
