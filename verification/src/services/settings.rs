//! Settings of services.
use serde_json::Number;
use vstd::prelude::*;
use vstd::string::*;

use crate::collections::ValueMap;
use crate::frames::{clone_text_opt, text_opt};
use crate::json::{
    copy_number, float_bits_of, float_opt, floats_equal, same_float, value_as_number, value_as_str,
    value_as_u64, Json, JsonNumber,
};
use crate::text::text_eq;

verus! {

/// Changes to settings: a map from field names to their new values.
pub type Settings = ValueMap;

/// LLM service settings. Floating-point numbers are carried as JSON numbers.
#[derive(Debug)]
pub struct LLMSettings {
    pub model: Option<String>,
    pub temperature: Option<Number>,
    pub max_tokens: Option<u32>,
    pub top_p: Option<Number>,
    pub frequency_penalty: Option<Number>,
    pub presence_penalty: Option<Number>,
    pub seed: Option<u32>,
    pub system_instruction: Option<String>,
}

/// What an [`LLMSettings`] says; floats are given by their bits.
pub struct LLMSettingsView {
    pub model: Option<Seq<char>>,
    pub temperature: Option<u64>,
    pub max_tokens: Option<u32>,
    pub top_p: Option<u64>,
    pub frequency_penalty: Option<u64>,
    pub presence_penalty: Option<u64>,
    pub seed: Option<u32>,
    pub system_instruction: Option<Seq<char>>,
}

impl View for LLMSettings {
    type V = LLMSettingsView;

    open spec fn view(&self) -> LLMSettingsView {
        LLMSettingsView {
            model: text_opt(self.model),
            temperature: float_opt(self.temperature),
            max_tokens: self.max_tokens,
            top_p: float_opt(self.top_p),
            frequency_penalty: float_opt(self.frequency_penalty),
            presence_penalty: float_opt(self.presence_penalty),
            seed: self.seed,
            system_instruction: text_opt(self.system_instruction),
        }
    }
}

/// A member of a set of changes.
pub open spec fn change_at(delta: Map<Seq<char>, Json>, key: Seq<char>) -> Option<Json> {
    if delta.dom().contains(key) {
        Some(delta[key])
    } else {
        None
    }
}

/// A text field after a change, and whether it has another value than before. A
/// change that is no text is ignored.
pub open spec fn text_change(
    field: Option<Seq<char>>,
    delta: Map<Seq<char>, Json>,
    key: Seq<char>,
) -> (Option<Seq<char>>, bool) {
    match change_at(delta, key) {
        Some(Json::Text(s)) => (Some(s), field != Some(s)),
        _ => (field, false),
    }
}

/// A float field after a change, and whether it has another value than before.
/// A change that is no number is ignored.
pub open spec fn float_change(
    field: Option<u64>,
    delta: Map<Seq<char>, Json>,
    key: Seq<char>,
) -> (Option<u64>, bool) {
    match change_at(delta, key) {
        Some(Json::Number(n)) => if field is Some && floats_equal(field->0, float_bits_of(n)) {
            (field, false)
        } else {
            (Some(float_bits_of(n)), true)
        },
        _ => (field, false),
    }
}

/// A 32-bit field after a change, and whether it has another value than before.
/// Of a larger number the low 32 bits count; a change that is no non-negative
/// integer is ignored.
pub open spec fn u32_change(
    field: Option<u32>,
    delta: Map<Seq<char>, Json>,
    key: Seq<char>,
) -> (Option<u32>, bool) {
    match change_at(delta, key) {
        Some(Json::Number(JsonNumber::Unsigned(n))) => {
            let low = (n % 0x1_0000_0000) as u32;
            (Some(low), field != Some(low))
        },
        _ => (field, false),
    }
}

/// A list with one name, or none.
pub open spec fn named(changed: bool, key: Seq<char>) -> Seq<Seq<char>> {
    if changed {
        seq![key]
    } else {
        Seq::empty()
    }
}

/// The names in a list.
pub open spec fn names_in(s: Seq<String>) -> Seq<Seq<char>> {
    s.map_values(|n: String| n@)
}

impl LLMSettingsView {
    /// Settings without any value.
    pub open spec fn none() -> LLMSettingsView {
        LLMSettingsView {
            model: None,
            temperature: None,
            max_tokens: None,
            top_p: None,
            frequency_penalty: None,
            presence_penalty: None,
            seed: None,
            system_instruction: None,
        }
    }

    /// The settings after changes.
    pub open spec fn applied(self, delta: Map<Seq<char>, Json>) -> LLMSettingsView {
        LLMSettingsView {
            model: text_change(self.model, delta, "model"@).0,
            temperature: float_change(self.temperature, delta, "temperature"@).0,
            max_tokens: u32_change(self.max_tokens, delta, "max_tokens"@).0,
            top_p: float_change(self.top_p, delta, "top_p"@).0,
            frequency_penalty: float_change(
                self.frequency_penalty,
                delta,
                "frequency_penalty"@,
            ).0,
            presence_penalty: float_change(self.presence_penalty, delta, "presence_penalty"@).0,
            seed: u32_change(self.seed, delta, "seed"@).0,
            system_instruction: text_change(
                self.system_instruction,
                delta,
                "system_instruction"@,
            ).0,
        }
    }

    /// The names of the fields that changes give another value.
    pub open spec fn changes(self, delta: Map<Seq<char>, Json>) -> Seq<Seq<char>> {
        named(text_change(self.model, delta, "model"@).1, "model"@) + named(
            float_change(self.temperature, delta, "temperature"@).1,
            "temperature"@,
        ) + named(u32_change(self.max_tokens, delta, "max_tokens"@).1, "max_tokens"@) + named(
            float_change(self.top_p, delta, "top_p"@).1,
            "top_p"@,
        ) + named(
            float_change(self.frequency_penalty, delta, "frequency_penalty"@).1,
            "frequency_penalty"@,
        ) + named(
            float_change(self.presence_penalty, delta, "presence_penalty"@).1,
            "presence_penalty"@,
        ) + named(u32_change(self.seed, delta, "seed"@).1, "seed"@) + named(
            text_change(self.system_instruction, delta, "system_instruction"@).1,
            "system_instruction"@,
        )
    }
}

impl Default for LLMSettings {
    fn default() -> (r: Self)
        ensures
            r@ == LLMSettingsView::none(),
    {
        LLMSettings {
            model: None,
            temperature: None,
            max_tokens: None,
            top_p: None,
            frequency_penalty: None,
            presence_penalty: None,
            seed: None,
            system_instruction: None,
        }
    }
}

impl LLMSettings {
    /// A copy.
    pub fn copy(&self) -> (r: Self)
        ensures
            r@ == self@,
    {
        LLMSettings {
            model: clone_text_opt(&self.model),
            temperature: copy_number(&self.temperature),
            max_tokens: self.max_tokens,
            top_p: copy_number(&self.top_p),
            frequency_penalty: copy_number(&self.frequency_penalty),
            presence_penalty: copy_number(&self.presence_penalty),
            seed: self.seed,
            system_instruction: clone_text_opt(&self.system_instruction),
        }
    }

    /// Apply changes. Returns the list of field names that changed.
    pub fn apply_delta(&mut self, delta: &Settings) -> (r: Vec<String>)
        ensures
            final(self)@ == old(self)@.applied(delta@),
            names_in(r@) == old(self)@.changes(delta@),
    {
        let mut changed: Vec<String> = Vec::new();
        proof {
            assert(names_in(changed@) =~= Seq::empty());
        }
        apply_string(delta, "model", &mut self.model, &mut changed);
        apply_f64(delta, "temperature", &mut self.temperature, &mut changed);
        apply_u32(delta, "max_tokens", &mut self.max_tokens, &mut changed);
        apply_f64(delta, "top_p", &mut self.top_p, &mut changed);
        apply_f64(delta, "frequency_penalty", &mut self.frequency_penalty, &mut changed);
        apply_f64(delta, "presence_penalty", &mut self.presence_penalty, &mut changed);
        apply_u32(delta, "seed", &mut self.seed, &mut changed);
        apply_string(delta, "system_instruction", &mut self.system_instruction, &mut changed);
        proof {
            assert(names_in(changed@) =~= old(self)@.changes(delta@));
        }
        changed
    }
}

/// TTS service settings.
#[derive(Debug)]
pub struct TTSSettings {
    pub model: Option<String>,
    pub voice: Option<String>,
    pub language: Option<String>,
}

/// What a [`TTSSettings`] says.
pub struct TTSSettingsView {
    pub model: Option<Seq<char>>,
    pub voice: Option<Seq<char>>,
    pub language: Option<Seq<char>>,
}

impl View for TTSSettings {
    type V = TTSSettingsView;

    open spec fn view(&self) -> TTSSettingsView {
        TTSSettingsView {
            model: text_opt(self.model),
            voice: text_opt(self.voice),
            language: text_opt(self.language),
        }
    }
}

impl TTSSettingsView {
    /// The settings after changes.
    pub open spec fn applied(self, delta: Map<Seq<char>, Json>) -> TTSSettingsView {
        TTSSettingsView {
            model: text_change(self.model, delta, "model"@).0,
            voice: text_change(self.voice, delta, "voice"@).0,
            language: text_change(self.language, delta, "language"@).0,
        }
    }

    /// The names of the fields that changes give another value.
    pub open spec fn changes(self, delta: Map<Seq<char>, Json>) -> Seq<Seq<char>> {
        named(text_change(self.model, delta, "model"@).1, "model"@) + named(
            text_change(self.voice, delta, "voice"@).1,
            "voice"@,
        ) + named(text_change(self.language, delta, "language"@).1, "language"@)
    }
}

impl Default for TTSSettings {
    fn default() -> (r: Self)
        ensures
            r.model is None,
            r.voice is None,
            r.language is None,
    {
        TTSSettings { model: None, voice: None, language: None }
    }
}

impl TTSSettings {
    /// Apply changes. Returns the list of field names that changed.
    pub fn apply_delta(&mut self, delta: &Settings) -> (r: Vec<String>)
        ensures
            final(self)@ == old(self)@.applied(delta@),
            names_in(r@) == old(self)@.changes(delta@),
    {
        let mut changed: Vec<String> = Vec::new();
        proof {
            assert(names_in(changed@) =~= Seq::empty());
        }
        apply_string(delta, "model", &mut self.model, &mut changed);
        apply_string(delta, "voice", &mut self.voice, &mut changed);
        apply_string(delta, "language", &mut self.language, &mut changed);
        proof {
            assert(names_in(changed@) =~= old(self)@.changes(delta@));
        }
        changed
    }
}

/// STT service settings.
#[derive(Debug)]
pub struct STTSettings {
    pub model: Option<String>,
    pub language: Option<String>,
}

/// What an [`STTSettings`] says.
pub struct STTSettingsView {
    pub model: Option<Seq<char>>,
    pub language: Option<Seq<char>>,
}

impl View for STTSettings {
    type V = STTSettingsView;

    open spec fn view(&self) -> STTSettingsView {
        STTSettingsView { model: text_opt(self.model), language: text_opt(self.language) }
    }
}

impl STTSettingsView {
    /// The settings after changes.
    pub open spec fn applied(self, delta: Map<Seq<char>, Json>) -> STTSettingsView {
        STTSettingsView {
            model: text_change(self.model, delta, "model"@).0,
            language: text_change(self.language, delta, "language"@).0,
        }
    }

    /// The names of the fields that changes give another value.
    pub open spec fn changes(self, delta: Map<Seq<char>, Json>) -> Seq<Seq<char>> {
        named(text_change(self.model, delta, "model"@).1, "model"@) + named(
            text_change(self.language, delta, "language"@).1,
            "language"@,
        )
    }
}

impl Default for STTSettings {
    fn default() -> (r: Self)
        ensures
            r.model is None,
            r.language is None,
    {
        STTSettings { model: None, language: None }
    }
}

impl STTSettings {
    /// Apply changes. Returns the list of field names that changed.
    pub fn apply_delta(&mut self, delta: &Settings) -> (r: Vec<String>)
        ensures
            final(self)@ == old(self)@.applied(delta@),
            names_in(r@) == old(self)@.changes(delta@),
    {
        let mut changed: Vec<String> = Vec::new();
        proof {
            assert(names_in(changed@) =~= Seq::empty());
        }
        apply_string(delta, "model", &mut self.model, &mut changed);
        apply_string(delta, "language", &mut self.language, &mut changed);
        proof {
            assert(names_in(changed@) =~= old(self)@.changes(delta@));
        }
        changed
    }
}

/// Notes the name of a field that changed.
fn note(changed: &mut Vec<String>, key: &str)
    ensures
        names_in(final(changed)@) == names_in(old(changed)@) + named(true, key@),
{
    changed.push(key.to_owned());
    proof {
        assert(names_in(changed@) =~= names_in(old(changed)@) + named(true, key@));
    }
}

fn apply_string(
    delta: &Settings,
    key: &str,
    field: &mut Option<String>,
    changed: &mut Vec<String>,
)
    ensures
        ({
            let (value, differs) = text_change(text_opt(*old(field)), delta@, key@);
            &&& text_opt(*final(field)) == value
            &&& names_in(final(changed)@) == names_in(old(changed)@) + named(differs, key@)
        }),
{
    proof {
        assert(names_in(changed@) + named(false, key@) =~= names_in(changed@));
    }
    if let Some(value) = delta.get(key) {
        if let Some(s) = value_as_str(value) {
            let same = match &*field {
                Some(current) => text_eq(current.as_str(), s),
                None => false,
            };
            if !same {
                *field = Some(s.to_owned());
                note(changed, key);
            }
        }
    }
}

fn apply_f64(
    delta: &Settings,
    key: &str,
    field: &mut Option<Number>,
    changed: &mut Vec<String>,
)
    ensures
        ({
            let (value, differs) = float_change(float_opt(*old(field)), delta@, key@);
            &&& float_opt(*final(field)) == value
            &&& names_in(final(changed)@) == names_in(old(changed)@) + named(differs, key@)
        }),
{
    proof {
        assert(names_in(changed@) + named(false, key@) =~= names_in(changed@));
    }
    if let Some(value) = delta.get(key) {
        if let Some(n) = value_as_number(value) {
            let same = match &*field {
                Some(current) => same_float(current, &n),
                None => false,
            };
            if !same {
                *field = Some(n);
                note(changed, key);
            }
        }
    }
}

fn apply_u32(delta: &Settings, key: &str, field: &mut Option<u32>, changed: &mut Vec<String>)
    ensures
        ({
            let (value, differs) = u32_change(*old(field), delta@, key@);
            &&& *final(field) == value
            &&& names_in(final(changed)@) == names_in(old(changed)@) + named(differs, key@)
        }),
{
    proof {
        assert(names_in(changed@) + named(false, key@) =~= names_in(changed@));
    }
    if let Some(value) = delta.get(key) {
        if let Some(n) = value_as_u64(value) {
            let low: u32 = (n % 0x1_0000_0000) as u32;
            if *field != Some(low) {
                *field = Some(low);
                note(changed, key);
            }
        }
    }
}

/// Applying the same changes a second time changes nothing and reports nothing.
pub proof fn lemma_changes_are_idempotent(
    llm: LLMSettingsView,
    tts: TTSSettingsView,
    stt: STTSettingsView,
    delta: Map<Seq<char>, Json>,
)
    ensures
        llm.applied(delta).applied(delta) == llm.applied(delta),
        llm.applied(delta).changes(delta) == Seq::<Seq<char>>::empty(),
        tts.applied(delta).applied(delta) == tts.applied(delta),
        tts.applied(delta).changes(delta) == Seq::<Seq<char>>::empty(),
        stt.applied(delta).applied(delta) == stt.applied(delta),
        stt.applied(delta).changes(delta) == Seq::<Seq<char>>::empty(),
{
    assert(llm.applied(delta).changes(delta) =~= Seq::<Seq<char>>::empty());
    assert(tts.applied(delta).changes(delta) =~= Seq::<Seq<char>>::empty());
    assert(stt.applied(delta).changes(delta) =~= Seq::<Seq<char>>::empty());
}

/// What is reported is exactly what changed: where nothing is reported, the
/// settings are as before.
pub proof fn lemma_no_report_no_change(
    llm: LLMSettingsView,
    tts: TTSSettingsView,
    stt: STTSettingsView,
    delta: Map<Seq<char>, Json>,
)
    ensures
        llm.changes(delta).len() == 0 ==> llm.applied(delta) == llm,
        tts.changes(delta).len() == 0 ==> tts.applied(delta) == tts,
        stt.changes(delta).len() == 0 ==> stt.applied(delta) == stt,
{
}

/// Changes to names that are no field are ignored.
pub proof fn lemma_unknown_names_are_ignored(
    llm: LLMSettingsView,
    tts: TTSSettingsView,
    stt: STTSettingsView,
    delta: Map<Seq<char>, Json>,
)
    requires
        !delta.dom().contains("model"@),
        !delta.dom().contains("temperature"@),
        !delta.dom().contains("max_tokens"@),
        !delta.dom().contains("top_p"@),
        !delta.dom().contains("frequency_penalty"@),
        !delta.dom().contains("presence_penalty"@),
        !delta.dom().contains("seed"@),
        !delta.dom().contains("system_instruction"@),
        !delta.dom().contains("voice"@),
        !delta.dom().contains("language"@),
    ensures
        llm.applied(delta) == llm,
        llm.changes(delta) == Seq::<Seq<char>>::empty(),
        tts.applied(delta) == tts,
        tts.changes(delta) == Seq::<Seq<char>>::empty(),
        stt.applied(delta) == stt,
        stt.changes(delta) == Seq::<Seq<char>>::empty(),
{
    assert(llm.changes(delta) =~= Seq::<Seq<char>>::empty());
    assert(tts.changes(delta) =~= Seq::<Seq<char>>::empty());
    assert(stt.changes(delta) =~= Seq::<Seq<char>>::empty());
}

} // verus!
