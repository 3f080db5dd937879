//! What changes of settings do, field by field.
use vstd::prelude::*;

use crate::json::{integer_float_bits, Json, JsonNumber};
use crate::services::llm::LlmModel;
use crate::services::openai::realtime_service::RealtimeModel;
use crate::services::settings::{LLMSettingsView, STTSettingsView, TTSSettingsView};
use crate::services::stt::SttModel;
use crate::services::tts::TtsModel;

verus! {

/// The text that changes give a field, if they give one.
pub open spec fn text_given(delta: Map<Seq<char>, Json>, key: Seq<char>) -> Option<Seq<char>> {
    if delta.dom().contains(key) {
        match delta[key] {
            Json::Text(s) => Some(s),
            _ => None,
        }
    } else {
        None
    }
}

/// Whether a text field went along with changes, and is reported where it has
/// another value than before.
pub open spec fn text_follows(
    before: Option<Seq<char>>,
    after: Option<Seq<char>>,
    delta: Map<Seq<char>, Json>,
    key: Seq<char>,
    reports: Seq<Seq<char>>,
) -> bool {
    &&& text_given(delta, key) is Some ==> after == text_given(delta, key)
    &&& text_given(delta, key) is None ==> after == before
    &&& reports.contains(key) <==> after != before
}

/// Whether an integer field went along with changes, and is reported where it has
/// another value than before. Of a large integer the low 32 bits count.
pub open spec fn integer_follows(
    before: Option<u32>,
    after: Option<u32>,
    delta: Map<Seq<char>, Json>,
    key: Seq<char>,
    reports: Seq<Seq<char>>,
) -> bool {
    &&& if delta.dom().contains(key) && delta[key] is Number && delta[key]->Number_0 is Unsigned {
        after is Some && after->0 as int == delta[key]->Number_0->Unsigned_0 as int % 4294967296
    } else {
        after == before
    }
    &&& reports.contains(key) <==> after != before
}

/// Whether a float field went along with changes, and is reported where it has
/// another value than before: other bits, unless both are a zero.
pub open spec fn float_follows(
    before: Option<u64>,
    after: Option<u64>,
    delta: Map<Seq<char>, Json>,
    key: Seq<char>,
    reports: Seq<Seq<char>>,
) -> bool {
    if delta.dom().contains(key) && delta[key] is Number {
        let bits = match delta[key]->Number_0 {
            JsonNumber::Float(b) => b,
            n => integer_float_bits(n),
        };
        let zero = |b: u64| b == 0 || b == 0x8000_0000_0000_0000u64;
        if before is Some && (before->0 == bits || (zero(before->0) && zero(bits))) {
            after == before && !reports.contains(key)
        } else {
            after == Some(bits) && reports.contains(key)
        }
    } else {
        after == before && !reports.contains(key)
    }
}

/// The length and the first letter of a name. No two names of settings agree in
/// them.
spec fn head(key: Seq<char>) -> (nat, char) {
    (key.len(), key[0])
}

proof fn lemma_names_differ()
    ensures
        head("model"@) == (5nat, 'm'),
        head("temperature"@) == (11nat, 't'),
        head("max_tokens"@) == (10nat, 'm'),
        head("top_p"@) == (5nat, 't'),
        head("frequency_penalty"@) == (17nat, 'f'),
        head("presence_penalty"@) == (16nat, 'p'),
        head("seed"@) == (4nat, 's'),
        head("system_instruction"@) == (18nat, 's'),
        head("voice"@) == (5nat, 'v'),
        head("language"@) == (8nat, 'l'),
{
    reveal_strlit("model");
    reveal_strlit("temperature");
    reveal_strlit("max_tokens");
    reveal_strlit("top_p");
    reveal_strlit("frequency_penalty");
    reveal_strlit("presence_penalty");
    reveal_strlit("seed");
    reveal_strlit("system_instruction");
    reveal_strlit("voice");
    reveal_strlit("language");
}

proof fn lemma_contains_concat(a: Seq<Seq<char>>, b: Seq<Seq<char>>, x: Seq<char>)
    ensures
        (a + b).contains(x) == (a.contains(x) || b.contains(x)),
{
    if a.contains(x) {
        let i = a.index_of(x);
        assert((a + b)[i] == x);
    }
    if b.contains(x) {
        let i = b.index_of(x);
        assert((a + b)[a.len() + i] == x);
    }
}

/// Each of the names that a list may hold is in it exactly if it is held.
proof fn lemma_named(held: bool, key: Seq<char>, x: Seq<char>)
    ensures
        crate::services::settings::named(held, key).contains(x) == (held && x == key),
{
    let list = crate::services::settings::named(held, key);
    if held {
        assert(list[0] == key);
    }
}

/// Every field of speech settings goes along with the changes under its name, and
/// the fields that have another value than before, and no others, are reported.
pub proof fn lemma_speech_settings_follow(
    tts: TTSSettingsView,
    stt: STTSettingsView,
    delta: Map<Seq<char>, Json>,
)
    ensures
        ({
            let (t, r) = (tts.applied(delta), tts.changes(delta));
            &&& text_follows(tts.model, t.model, delta, "model"@, r)
            &&& text_follows(tts.voice, t.voice, delta, "voice"@, r)
            &&& text_follows(tts.language, t.language, delta, "language"@, r)
        }),
        ({
            let (s, r) = (stt.applied(delta), stt.changes(delta));
            &&& text_follows(stt.model, s.model, delta, "model"@, r)
            &&& text_follows(stt.language, s.language, delta, "language"@, r)
        }),
{
    lemma_names_differ();
    let (a, b, c) = ("model"@, "voice"@, "language"@);
    let named = |held: bool, key: Seq<char>| crate::services::settings::named(held, key);
    let t = tts.applied(delta);
    let m1 = named(tts.model != t.model, a);
    let m2 = named(tts.voice != t.voice, b);
    let m3 = named(tts.language != t.language, c);
    assert(tts.changes(delta) == m1 + m2 + m3);
    let s = stt.applied(delta);
    let n1 = named(stt.model != s.model, a);
    let n2 = named(stt.language != s.language, c);
    assert(stt.changes(delta) == n1 + n2);
    assert forall|x: Seq<char>| x == a || x == b || x == c implies ({
        &&& tts.changes(delta).contains(x) == ((x == a && tts.model != t.model) || (x == b
            && tts.voice != t.voice) || (x == c && tts.language != t.language))
        &&& stt.changes(delta).contains(x) == ((x == a && stt.model != s.model) || (x == c
            && stt.language != s.language))
    }) by {
        lemma_named(tts.model != t.model, a, x);
        lemma_named(tts.voice != t.voice, b, x);
        lemma_named(tts.language != t.language, c, x);
        lemma_named(stt.model != s.model, a, x);
        lemma_named(stt.language != s.language, c, x);
        lemma_contains_concat(m1, m2, x);
        lemma_contains_concat(m1 + m2, m3, x);
        lemma_contains_concat(n1, n2, x);
    }
}

/// Every field of the settings of a language model goes along with the changes
/// under its name, and the fields that have another value than before, and no
/// others, are reported.
pub proof fn lemma_model_settings_follow(llm: LLMSettingsView, delta: Map<Seq<char>, Json>)
    ensures
        ({
            let (l, r) = (llm.applied(delta), llm.changes(delta));
            &&& text_follows(llm.model, l.model, delta, "model"@, r)
            &&& float_follows(llm.temperature, l.temperature, delta, "temperature"@, r)
            &&& integer_follows(llm.max_tokens, l.max_tokens, delta, "max_tokens"@, r)
            &&& float_follows(llm.top_p, l.top_p, delta, "top_p"@, r)
            &&& float_follows(
                llm.frequency_penalty,
                l.frequency_penalty,
                delta,
                "frequency_penalty"@,
                r,
            )
            &&& float_follows(
                llm.presence_penalty,
                l.presence_penalty,
                delta,
                "presence_penalty"@,
                r,
            )
            &&& integer_follows(llm.seed, l.seed, delta, "seed"@, r)
            &&& text_follows(
                llm.system_instruction,
                l.system_instruction,
                delta,
                "system_instruction"@,
                r,
            )
        }),
{
    lemma_names_differ();
    lemma_reports_of_a_model(llm, delta, "model"@);
    lemma_reports_of_a_model(llm, delta, "temperature"@);
    lemma_reports_of_a_model(llm, delta, "max_tokens"@);
    lemma_reports_of_a_model(llm, delta, "top_p"@);
    lemma_reports_of_a_model(llm, delta, "frequency_penalty"@);
    lemma_reports_of_a_model(llm, delta, "presence_penalty"@);
    lemma_reports_of_a_model(llm, delta, "seed"@);
    lemma_reports_of_a_model(llm, delta, "system_instruction"@);
}

/// What is reported under a name is the change of the field with that name.
proof fn lemma_reports_of_a_model(
    llm: LLMSettingsView,
    delta: Map<Seq<char>, Json>,
    x: Seq<char>,
)
    ensures
        llm.changes(delta).contains(x) == ((x == "model"@ && llm.model != llm.applied(
            delta,
        ).model) || (x == "temperature"@ && llm.temperature != llm.applied(delta).temperature) || (x
            == "max_tokens"@ && llm.max_tokens != llm.applied(delta).max_tokens) || (x == "top_p"@
            && llm.top_p != llm.applied(delta).top_p) || (x == "frequency_penalty"@
            && llm.frequency_penalty != llm.applied(delta).frequency_penalty) || (x
            == "presence_penalty"@ && llm.presence_penalty != llm.applied(delta).presence_penalty)
            || (x == "seed"@ && llm.seed != llm.applied(delta).seed) || (x
            == "system_instruction"@ && llm.system_instruction != llm.applied(
            delta,
        ).system_instruction)),
{
    let named = |held: bool, key: Seq<char>| crate::services::settings::named(held, key);
    let l = llm.applied(delta);
    let c1 = llm.model != l.model;
    let c2 = llm.temperature != l.temperature;
    let c3 = llm.max_tokens != l.max_tokens;
    let c4 = llm.top_p != l.top_p;
    let c5 = llm.frequency_penalty != l.frequency_penalty;
    let c6 = llm.presence_penalty != l.presence_penalty;
    let c7 = llm.seed != l.seed;
    let c8 = llm.system_instruction != l.system_instruction;
    let n1 = named(c1, "model"@);
    let n2 = named(c2, "temperature"@);
    let n3 = named(c3, "max_tokens"@);
    let n4 = named(c4, "top_p"@);
    let n5 = named(c5, "frequency_penalty"@);
    let n6 = named(c6, "presence_penalty"@);
    let n7 = named(c7, "seed"@);
    let n8 = named(c8, "system_instruction"@);
    assert(llm.changes(delta) == n1 + n2 + n3 + n4 + n5 + n6 + n7 + n8);
    lemma_named(c1, "model"@, x);
    lemma_named(c2, "temperature"@, x);
    lemma_named(c3, "max_tokens"@, x);
    lemma_named(c4, "top_p"@, x);
    lemma_named(c5, "frequency_penalty"@, x);
    lemma_named(c6, "presence_penalty"@, x);
    lemma_named(c7, "seed"@, x);
    lemma_named(c8, "system_instruction"@, x);
    lemma_contains_concat(n1, n2, x);
    lemma_contains_concat(n1 + n2, n3, x);
    lemma_contains_concat(n1 + n2 + n3, n4, x);
    lemma_contains_concat(n1 + n2 + n3 + n4, n5, x);
    lemma_contains_concat(n1 + n2 + n3 + n4 + n5, n6, x);
    lemma_contains_concat(n1 + n2 + n3 + n4 + n5 + n6, n7, x);
    lemma_contains_concat(n1 + n2 + n3 + n4 + n5 + n6 + n7, n8, x);
}

/// The model that measurements are reported for, where another was set before.
pub open spec fn measured_model(
    before: Option<Seq<char>>,
    setting: Option<Seq<char>>,
    delta: Map<Seq<char>, Json>,
) -> Option<Seq<char>> {
    match text_given(delta, "model"@) {
        Some(s) => if setting == Some(s) {
            before
        } else {
            Some(s)
        },
        None => before,
    }
}

/// All services report measurements for a new model from the change on that sets
/// it, and nothing but their settings and that changes.
pub proof fn lemma_new_model_is_measured(
    stt: SttModel,
    tts: TtsModel,
    llm: LlmModel,
    session: RealtimeModel,
    delta: Map<Seq<char>, Json>,
)
    ensures
        stt.updated(delta).base.model == measured_model(
            stt.base.model,
            stt.settings.model,
            delta,
        ),
        tts.updated(delta).base.model == measured_model(
            tts.base.model,
            tts.settings.model,
            delta,
        ),
        llm.updated(delta).base.model == measured_model(
            llm.base.model,
            llm.settings.model,
            delta,
        ),
        session.settings_changed(delta).0.base.model == measured_model(
            session.base.model,
            session.settings.base.model,
            delta,
        ),
        stt.updated(delta).settings == stt.settings.applied(delta),
        tts.updated(delta).settings == tts.settings.applied(delta),
        llm.updated(delta).settings == llm.settings.applied(delta),
        session.settings_changed(delta).0.settings.base == session.settings.base.applied(delta),
        stt.updated(delta) == (SttModel {
            settings: stt.updated(delta).settings,
            base: stt.updated(delta).base,
            ..stt
        }),
        tts.updated(delta) == (TtsModel {
            settings: tts.updated(delta).settings,
            base: tts.updated(delta).base,
            ..tts
        }),
        stt.updated(delta).base.name == stt.base.name,
        tts.updated(delta).base.name == tts.base.name,
        stt.updated(delta).base.metrics_enabled == stt.base.metrics_enabled,
        tts.updated(delta).base.metrics_enabled == tts.base.metrics_enabled,
{
    lemma_speech_settings_follow(tts.settings, stt.settings, delta);
    lemma_model_settings_follow(llm.settings, delta);
    lemma_model_settings_follow(session.settings.base, delta);
}

} // verus!
