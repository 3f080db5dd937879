//! How structures are written as JSON documents, and read from them.
//!
//! A structure is written as an object; fields without a value are left out. It
//! is read from an object, whose other members are ignored, or from an array
//! that holds the fields in their order.
use serde_json::{Number, Value};
use vstd::prelude::*;
use vstd::string::*;

use crate::frames::text_opt;
use crate::json::{
    float_bits_of, float_opt, json_of, json_opt, json_seq, value_array, value_as_array,
    value_as_bool, value_as_number, value_as_str, value_as_u64, value_bool, value_float, value_get,
    value_is_null, value_is_object, value_set, value_string, value_u64, Json, JsonNumber,
};

verus! {

/// The texts in a list.
pub open spec fn texts_in(s: Seq<String>) -> Seq<Seq<char>> {
    s.map_values(|t: String| t@)
}

/// The texts in an optional list.
pub open spec fn texts_opt(s: Option<Vec<String>>) -> Option<Seq<Seq<char>>> {
    match s {
        Some(list) => Some(texts_in(list@)),
        None => None,
    }
}

/// A text as a document.
pub open spec fn text_json(s: Option<Seq<char>>) -> Option<Json> {
    match s {
        Some(t) => Some(Json::Text(t)),
        None => None,
    }
}

/// A list of texts as a document.
pub open spec fn texts_json(s: Option<Seq<Seq<char>>>) -> Option<Json> {
    match s {
        Some(list) => Some(Json::Array(list.map_values(|t: Seq<char>| Json::Text(t)))),
        None => None,
    }
}

/// A small number as a document.
pub open spec fn u32_json(n: Option<u32>) -> Option<Json> {
    match n {
        Some(x) => Some(Json::Number(JsonNumber::Unsigned(x as u64))),
        None => None,
    }
}

/// A float as a document.
pub open spec fn float_json(bits: Option<u64>) -> Option<Json> {
    match bits {
        Some(b) => Some(Json::Number(JsonNumber::Float(b))),
        None => None,
    }
}

/// A truth value as a document.
pub open spec fn bool_json(b: Option<bool>) -> Option<Json> {
    match b {
        Some(x) => Some(Json::Bool(x)),
        None => None,
    }
}

/// Sets a text member, if there is a text.
pub(crate) fn set_text(v: &mut Value, key: &str, text: &Option<String>)
    requires
        json_of(*old(v)) is Object,
    ensures
        json_of(*final(v)) == json_of(*old(v)).with_some(key@, text_json(text_opt(*text))),
{
    if let Some(t) = text {
        value_set(v, key, value_string(t.clone()));
    }
}

/// Sets a member to the given text.
pub(crate) fn set_str(v: &mut Value, key: &str, text: &str)
    requires
        json_of(*old(v)) is Object,
    ensures
        json_of(*final(v)) == json_of(*old(v)).with(key@, Json::Text(text@)),
{
    value_set(v, key, value_string(text.to_owned()));
}

/// A list of texts as a value.
pub(crate) fn texts_value(list: &Vec<String>) -> (r: Value)
    ensures
        Some(json_of(r)) == texts_json(Some(texts_in(list@))),
{
    let ghost all = texts_in(list@).map_values(|t: Seq<char>| Json::Text(t));
    let mut items: Vec<Value> = Vec::new();
    let mut i: usize = 0;
    proof {
        assert(json_seq(items@) =~= all.take(0));
    }
    while i < list.len()
        invariant
            i <= list@.len(),
            all == texts_in(list@).map_values(|t: Seq<char>| Json::Text(t)),
            json_seq(items@) == all.take(i as int),
        decreases list@.len() - i,
    {
        let ghost done = json_seq(items@);
        items.push(value_string(list[i].clone()));
        proof {
            assert(json_seq(items@) =~= done.push(all[i as int]));
            assert(all.take(i + 1) =~= all.take(i as int).push(all[i as int]));
        }
        i = i + 1;
    }
    proof {
        assert(all.take(all.len() as int) =~= all);
    }
    value_array(items)
}

/// Sets a member to a list of texts, if there is one.
pub(crate) fn set_texts(v: &mut Value, key: &str, texts: &Option<Vec<String>>)
    requires
        json_of(*old(v)) is Object,
    ensures
        json_of(*final(v)) == json_of(*old(v)).with_some(key@, texts_json(texts_opt(*texts))),
{
    if let Some(list) = texts {
        value_set(v, key, texts_value(list));
    }
}

/// Sets a number member, if there is a number.
pub(crate) fn set_u32(v: &mut Value, key: &str, n: &Option<u32>)
    requires
        json_of(*old(v)) is Object,
    ensures
        json_of(*final(v)) == json_of(*old(v)).with_some(key@, u32_json(*n)),
{
    if let Some(x) = n {
        value_set(v, key, value_u64(*x as u64));
    }
}

/// Sets a float member, if there is a float.
pub(crate) fn set_float(v: &mut Value, key: &str, n: &Option<Number>)
    requires
        json_of(*old(v)) is Object,
    ensures
        json_of(*final(v)) == json_of(*old(v)).with_some(key@, float_json(float_opt(*n))),
{
    if let Some(x) = n {
        value_set(v, key, value_float(x));
    }
}

/// Sets a truth value member, if there is one.
pub(crate) fn set_bool(v: &mut Value, key: &str, b: &Option<bool>)
    requires
        json_of(*old(v)) is Object,
    ensures
        json_of(*final(v)) == json_of(*old(v)).with_some(key@, bool_json(*b)),
{
    if let Some(x) = b {
        value_set(v, key, value_bool(*x));
    }
}

/// Sets a member to a document, if there is one.
pub(crate) fn set_value(v: &mut Value, key: &str, document: &Option<Value>)
    requires
        json_of(*old(v)) is Object,
    ensures
        json_of(*final(v)) == json_of(*old(v)).with_some(key@, json_opt(*document)),
{
    if let Some(d) = document {
        value_set(v, key, d.clone());
    }
}

/// The member of a structure: by its name in an object, by its position in an
/// array.
pub open spec fn member(j: Json, name: Seq<char>, position: int) -> Option<Json> {
    match j {
        Json::Object(_) => j.get(name),
        Json::Array(s) => if position < s.len() {
            Some(s[position])
        } else {
            None
        },
        _ => None,
    }
}

/// Whether a document can hold a structure: an object, or an array with at
/// least `least` and at most `most` elements.
pub open spec fn holds_structure(j: Json, least: nat, most: nat) -> bool {
    match j {
        Json::Object(_) => true,
        Json::Array(s) => least <= s.len() <= most,
        _ => false,
    }
}

/// The member of a structure.
pub(crate) fn get_member<'a>(v: &'a Value, name: &str, position: usize) -> (r: Option<&'a Value>)
    ensures
        match member(json_of(*v), name@, position as int) {
            Some(x) => r is Some && json_of(*r->0) == x,
            None => r is None,
        },
{
    match value_as_array(v) {
        Some(items) => {
            if position < items.len() {
                assert(json_seq(items@)[position as int] == json_of(items@[position as int]));
                Some(&items[position])
            } else {
                None
            }
        },
        None => value_get(v, name),
    }
}

/// Whether a document can hold a structure.
pub(crate) fn is_structure(v: &Value, least: usize, most: usize) -> (r: bool)
    ensures
        r == holds_structure(json_of(*v), least as nat, most as nat),
{
    match value_as_array(v) {
        Some(items) => {
            assert(json_seq(items@).len() == items@.len());
            least <= items.len() && items.len() <= most
        },
        None => value_is_object(v),
    }
}

/// A required text. Nothing where it is missing or no text.
pub open spec fn read_text(m: Option<Json>) -> Option<Seq<char>> {
    match m {
        Some(Json::Text(s)) => Some(s),
        _ => None,
    }
}

/// An optional text: missing, null or a text. Nothing where it is anything else.
pub open spec fn read_text_opt(m: Option<Json>) -> Option<Option<Seq<char>>> {
    match m {
        None => Some(None),
        Some(Json::Null) => Some(None),
        Some(Json::Text(s)) => Some(Some(s)),
        _ => None,
    }
}

/// A text that is empty where it is missing.
pub open spec fn read_text_or_empty(m: Option<Json>) -> Option<Seq<char>> {
    match m {
        None => Some(Seq::empty()),
        Some(Json::Text(s)) => Some(s),
        _ => None,
    }
}

/// A 32-bit number that is zero where it is missing.
pub open spec fn read_u32_or_zero(m: Option<Json>) -> Option<u32> {
    match m {
        None => Some(0),
        Some(Json::Number(JsonNumber::Unsigned(n))) => if n <= u32::MAX {
            Some(n as u32)
        } else {
            None
        },
        _ => None,
    }
}

/// An optional 32-bit number.
pub open spec fn read_u32_opt(m: Option<Json>) -> Option<Option<u32>> {
    match m {
        None => Some(None),
        Some(Json::Null) => Some(None),
        Some(Json::Number(JsonNumber::Unsigned(n))) => if n <= u32::MAX {
            Some(Some(n as u32))
        } else {
            None
        },
        _ => None,
    }
}

/// An optional float, by its bits. Any number will do.
pub open spec fn read_float_opt(m: Option<Json>) -> Option<Option<u64>> {
    match m {
        None => Some(None),
        Some(Json::Null) => Some(None),
        Some(Json::Number(n)) => Some(Some(float_bits_of(n))),
        _ => None,
    }
}

/// An optional truth value.
pub open spec fn read_bool_opt(m: Option<Json>) -> Option<Option<bool>> {
    match m {
        None => Some(None),
        Some(Json::Null) => Some(None),
        Some(Json::Bool(b)) => Some(Some(b)),
        _ => None,
    }
}

/// An optional document. Null counts as missing.
pub open spec fn read_json_opt(m: Option<Json>) -> Option<Json> {
    match m {
        Some(Json::Null) => None,
        other => other,
    }
}

/// A list of texts. Nothing where one of the elements is no text.
pub open spec fn read_texts(list: Seq<Json>) -> Option<Seq<Seq<char>>>
    decreases list.len(),
{
    if list.len() == 0 {
        Some(Seq::empty())
    } else {
        match (read_texts(list.drop_last()), list.last()) {
            (Some(front), Json::Text(s)) => Some(front.push(s)),
            _ => None,
        }
    }
}

/// An optional list of texts.
pub open spec fn read_texts_opt(m: Option<Json>) -> Option<Option<Seq<Seq<char>>>> {
    match m {
        None => Some(None),
        Some(Json::Null) => Some(None),
        Some(Json::Array(list)) => match read_texts(list) {
            Some(texts) => Some(Some(texts)),
            None => None,
        },
        _ => None,
    }
}

/// The document that an optional reference leads to.
pub open spec fn ref_json(v: Option<&Value>) -> Option<Json> {
    match v {
        Some(x) => Some(json_of(*x)),
        None => None,
    }
}

pub(crate) fn get_text(v: Option<&Value>) -> (r: Option<String>)
    ensures
        text_opt(r) == read_text(ref_json(v)),
{
    match v {
        Some(x) => match value_as_str(x) {
            Some(s) => Some(s.to_owned()),
            None => None,
        },
        None => None,
    }
}

pub(crate) fn get_text_opt(v: Option<&Value>) -> (r: Option<Option<String>>)
    ensures
        match r {
            Some(t) => read_text_opt(ref_json(v)) == Some(text_opt(t)),
            None => read_text_opt(ref_json(v)) is None,
        },
{
    match v {
        Some(x) => {
            if value_is_null(x) {
                return Some(None);
            }
            match value_as_str(x) {
                Some(s) => Some(Some(s.to_owned())),
                None => None,
            }
        },
        None => Some(None),
    }
}

pub(crate) fn get_text_or_empty(v: Option<&Value>) -> (r: Option<String>)
    ensures
        text_opt(r) == read_text_or_empty(ref_json(v)),
{
    match v {
        Some(x) => match value_as_str(x) {
            Some(s) => Some(s.to_owned()),
            None => None,
        },
        None => Some(String::new()),
    }
}

pub(crate) fn get_u32_or_zero(v: Option<&Value>) -> (r: Option<u32>)
    ensures
        r == read_u32_or_zero(ref_json(v)),
{
    match v {
        Some(x) => match value_as_u64(x) {
            Some(n) => if n <= u32::MAX as u64 {
                Some(n as u32)
            } else {
                None
            },
            None => None,
        },
        None => Some(0),
    }
}

pub(crate) fn get_u32_opt(v: Option<&Value>) -> (r: Option<Option<u32>>)
    ensures
        r == read_u32_opt(ref_json(v)),
{
    match v {
        Some(x) => {
            if value_is_null(x) {
                return Some(None);
            }
            match value_as_u64(x) {
                Some(n) => if n <= u32::MAX as u64 {
                    Some(Some(n as u32))
                } else {
                    None
                },
                None => None,
            }
        },
        None => Some(None),
    }
}

pub(crate) fn get_float_opt(v: Option<&Value>) -> (r: Option<Option<Number>>)
    ensures
        match r {
            Some(n) => read_float_opt(ref_json(v)) == Some(float_opt(n)),
            None => read_float_opt(ref_json(v)) is None,
        },
{
    match v {
        Some(x) => {
            if value_is_null(x) {
                return Some(None);
            }
            match value_as_number(x) {
                Some(n) => Some(Some(n)),
                None => None,
            }
        },
        None => Some(None),
    }
}

pub(crate) fn get_bool_opt(v: Option<&Value>) -> (r: Option<Option<bool>>)
    ensures
        r == read_bool_opt(ref_json(v)),
{
    match v {
        Some(x) => {
            if value_is_null(x) {
                return Some(None);
            }
            match value_as_bool(x) {
                Some(b) => Some(Some(b)),
                None => None,
            }
        },
        None => Some(None),
    }
}

pub(crate) fn get_json_opt(v: Option<&Value>) -> (r: Option<Value>)
    ensures
        json_opt(r) == read_json_opt(ref_json(v)),
{
    match v {
        Some(x) => {
            if value_is_null(x) {
                None
            } else {
                Some(x.clone())
            }
        },
        None => None,
    }
}

proof fn lemma_read_texts_prefix(list: Seq<Json>, n: int)
    requires
        0 <= n <= list.len(),
        read_texts(list.take(n)) is None,
    ensures
        read_texts(list) is None,
    decreases list.len() - n,
{
    if n < list.len() {
        assert(list.take(n + 1).drop_last() =~= list.take(n));
        lemma_read_texts_prefix(list, n + 1);
    } else {
        assert(list.take(n) =~= list);
    }
}

pub(crate) fn get_texts_opt(v: Option<&Value>) -> (r: Option<Option<Vec<String>>>)
    ensures
        match r {
            Some(t) => read_texts_opt(ref_json(v)) == Some(texts_opt(t)),
            None => read_texts_opt(ref_json(v)) is None,
        },
{
    let x: &Value = match v {
        Some(x) => x,
        None => return Some(None),
    };
    if value_is_null(x) {
        return Some(None);
    }
    let items: &Vec<Value> = match value_as_array(x) {
        Some(items) => items,
        None => return None,
    };
    let ghost all = json_seq(items@);
    let mut out: Vec<String> = Vec::new();
    let mut i: usize = 0;
    proof {
        assert(all.take(0) =~= Seq::empty());
        assert(texts_in(out@) =~= Seq::empty());
    }
    while i < items.len()
        invariant
            i <= items@.len(),
            all == json_seq(items@),
            json_of(*x) == Json::Array(all),
            v == Some(x),
            read_texts(all.take(i as int)) == Some(texts_in(out@)),
        decreases items@.len() - i,
    {
        let ghost done = texts_in(out@);
        proof {
            assert(all.take(i + 1).drop_last() =~= all.take(i as int));
            assert(all.take(i + 1).last() == json_of(items@[i as int]));
        }
        match value_as_str(&items[i]) {
            Some(s) => {
                out.push(s.to_owned());
                proof {
                    assert(texts_in(out@) =~= done.push(s@));
                }
            },
            None => {
                proof {
                    lemma_read_texts_prefix(all, i + 1);
                }
                return None;
            },
        }
        i = i + 1;
    }
    proof {
        assert(all.take(all.len() as int) =~= all);
    }
    Some(Some(out))
}

/// A copy of an optional document.
pub(crate) fn copy_value(v: &Option<Value>) -> (r: Option<Value>)
    ensures
        json_opt(r) == json_opt(*v),
{
    match v {
        Some(x) => Some(x.clone()),
        None => None,
    }
}

/// A copy of a list of texts.
pub(crate) fn copy_texts(list: &Vec<String>) -> (r: Vec<String>)
    ensures
        texts_in(r@) == texts_in(list@),
{
    let ghost all = texts_in(list@);
    let mut out: Vec<String> = Vec::new();
    let mut i: usize = 0;
    proof {
        assert(texts_in(out@) =~= all.take(0));
    }
    while i < list.len()
        invariant
            i <= list@.len(),
            all == texts_in(list@),
            texts_in(out@) == all.take(i as int),
        decreases list@.len() - i,
    {
        let ghost done = texts_in(out@);
        out.push(list[i].clone());
        proof {
            assert(texts_in(out@) =~= done.push(all[i as int]));
            assert(all.take(i + 1) =~= all.take(i as int).push(all[i as int]));
        }
        i = i + 1;
    }
    proof {
        assert(all.take(all.len() as int) =~= all);
    }
    out
}

/// A copy of an optional list of texts.
pub(crate) fn copy_texts_opt(list: &Option<Vec<String>>) -> (r: Option<Vec<String>>)
    ensures
        texts_opt(r) == texts_opt(*list),
{
    match list {
        Some(l) => Some(copy_texts(l)),
        None => None,
    }
}

} // verus!
