//! JSON documents.
//!
//! Documents are carried by `serde_json::Value`. Its contents are described by
//! the mathematical type [`Json`]; the functions of this module read and build
//! values, each stating what it does to that description.
use vstd::prelude::*;

verus! {

/// `serde_json::Value`: a tree whose contents [`json_of`] gives.
#[verifier::external_type_specification]
#[verifier::external_body]
pub struct ExValue(serde_json::Value);

/// `serde_json::Number`: a number whose value [`number_of`] gives.
#[verifier::external_type_specification]
#[verifier::external_body]
pub struct ExNumber(serde_json::Number);

/// A JSON number: an unsigned integer, a negative integer, or a floating-point
/// number given by the bits of its binary64 representation.
pub enum JsonNumber {
    Unsigned(u64),
    Negative(i64),
    Float(u64),
}

/// A JSON document.
pub enum Json {
    Null,
    Bool(bool),
    Number(JsonNumber),
    Text(Seq<char>),
    Array(Seq<Json>),
    Object(Map<Seq<char>, Json>),
}

impl Json {
    /// The member of an object under `key`; nothing for any other document.
    pub open spec fn get(self, key: Seq<char>) -> Option<Json> {
        match self {
            Json::Object(m) => if m.dom().contains(key) {
                Some(m[key])
            } else {
                None
            },
            _ => None,
        }
    }

    /// The characters of a string document.
    pub open spec fn text(self) -> Option<Seq<char>> {
        match self {
            Json::Text(s) => Some(s),
            _ => None,
        }
    }

    /// The value of a number document that is a non-negative integer.
    pub open spec fn unsigned(self) -> Option<u64> {
        match self {
            Json::Number(JsonNumber::Unsigned(n)) => Some(n),
            _ => None,
        }
    }

    /// The value of a number document that is an integer in the range of `i64`.
    pub open spec fn signed(self) -> Option<i64> {
        match self {
            Json::Number(JsonNumber::Unsigned(n)) => if n <= i64::MAX {
                Some(n as i64)
            } else {
                None
            },
            Json::Number(JsonNumber::Negative(n)) => Some(n),
            _ => None,
        }
    }

    /// The elements of an array document.
    pub open spec fn elements(self) -> Option<Seq<Json>> {
        match self {
            Json::Array(s) => Some(s),
            _ => None,
        }
    }

    /// The string member of an object under `key`.
    pub open spec fn text_at(self, key: Seq<char>) -> Option<Seq<char>> {
        match self.get(key) {
            Some(v) => v.text(),
            None => None,
        }
    }

    /// The non-negative integer member of an object under `key`.
    pub open spec fn unsigned_at(self, key: Seq<char>) -> Option<u64> {
        match self.get(key) {
            Some(v) => v.unsigned(),
            None => None,
        }
    }

    /// The array member of an object under `key`.
    pub open spec fn elements_at(self, key: Seq<char>) -> Option<Seq<Json>> {
        match self.get(key) {
            Some(v) => v.elements(),
            None => None,
        }
    }

    /// An object with the member under `key` set to `value`.
    pub open spec fn with(self, key: Seq<char>, value: Json) -> Json {
        match self {
            Json::Object(m) => Json::Object(m.insert(key, value)),
            _ => self,
        }
    }

    /// An object with the member under `key` set where there is a value to set.
    pub open spec fn with_some(self, key: Seq<char>, value: Option<Json>) -> Json {
        match value {
            Some(v) => self.with(key, v),
            None => self,
        }
    }
}

/// The object without members.
pub open spec fn empty_object() -> Json {
    Json::Object(Map::empty())
}

/// The document that a `serde_json::Value` holds.
pub uninterp spec fn json_of(v: serde_json::Value) -> Json;

/// The value of a `serde_json::Number`.
pub uninterp spec fn number_of(n: serde_json::Number) -> JsonNumber;

/// The binary64 number nearest to an integer, by its bits: what
/// `Number::as_f64` computes of a number that is no float.
pub uninterp spec fn integer_float_bits(n: JsonNumber) -> u64;

/// A JSON number as a binary64 number, by its bits.
pub open spec fn float_bits_of(n: JsonNumber) -> u64 {
    match n {
        JsonNumber::Float(bits) => bits,
        other => integer_float_bits(other),
    }
}

/// Whether two finite binary64 numbers, given by their bits, are equal as
/// numbers: the same bits, or both a zero.
pub open spec fn floats_equal(a: u64, b: u64) -> bool {
    a == b || (is_float_zero(a) && is_float_zero(b))
}

/// Whether the bits are those of the positive or the negative zero.
pub open spec fn is_float_zero(a: u64) -> bool {
    a == 0 || a == 0x8000_0000_0000_0000
}

/// The bits of an optional number as a float.
pub open spec fn float_opt(n: Option<serde_json::Number>) -> Option<u64> {
    match n {
        Some(x) => Some(float_bits_of(number_of(x))),
        None => None,
    }
}

/// A copy of an optional number.
pub(crate) fn copy_number(n: &Option<serde_json::Number>) -> (r: Option<serde_json::Number>)
    ensures
        float_opt(r) == float_opt(*n),
{
    match n {
        Some(x) => Some(x.clone()),
        None => None,
    }
}

/// The documents that a sequence of values holds.
pub open spec fn json_seq(s: Seq<serde_json::Value>) -> Seq<Json> {
    s.map_values(|v: serde_json::Value| json_of(v))
}

/// The document that an optional value holds.
pub open spec fn json_opt(v: Option<serde_json::Value>) -> Option<Json> {
    match v {
        Some(x) => Some(json_of(x)),
        None => None,
    }
}

/// What `serde_json::from_str` makes of a text: the document, or nothing where
/// the text is not JSON.
pub uninterp spec fn parsed_json(text: Seq<char>) -> Option<Json>;

/// The text that `serde_json::to_string` makes of a document.
pub uninterp spec fn json_text(document: Json) -> Seq<char>;

/// Calls `serde_json::from_str` for a `Value`: the result is [`parsed_json`] of
/// the text. Its error is dropped.
#[verifier::external_body]
pub(crate) fn parse_value(text: &str) -> (r: Option<serde_json::Value>)
    ensures
        json_opt(r) == parsed_json(text@),
{
    serde_json::from_str::<serde_json::Value>(text).ok()
}

/// Calls `serde_json::to_string` on a `Value`: the result is [`json_text`] of
/// the document. Writing a `Value`, whose keys are strings, into a string does
/// not fail.
#[verifier::external_body]
pub(crate) fn value_to_text(v: &serde_json::Value) -> (r: String)
    ensures
        r@ == json_text(json_of(*v)),
{
    serde_json::to_string(v).unwrap_or_default()
}

/// Calls `Value::get` with a string: the member of that name, of an object only.
#[verifier::external_body]
pub(crate) fn value_get<'a>(v: &'a serde_json::Value, key: &str) -> (r: Option<&'a serde_json::Value>)
    ensures
        match json_of(*v).get(key@) {
            Some(x) => r is Some && json_of(*r->0) == x,
            None => r is None,
        },
{
    v.get(key)
}

/// Calls `Value::as_str`: the characters of a string, nothing for the rest.
#[verifier::external_body]
pub(crate) fn value_as_str(v: &serde_json::Value) -> (r: Option<&str>)
    ensures
        match json_of(*v).text() {
            Some(x) => r is Some && r->0@ == x,
            None => r is None,
        },
{
    v.as_str()
}

/// Calls `Value::as_u64`: the value of a non-negative integer.
#[verifier::external_body]
pub(crate) fn value_as_u64(v: &serde_json::Value) -> (r: Option<u64>)
    ensures
        r == json_of(*v).unsigned(),
{
    v.as_u64()
}

/// Calls `Value::as_i64`: the value of an integer in the range of `i64`.
#[verifier::external_body]
pub(crate) fn value_as_i64(v: &serde_json::Value) -> (r: Option<i64>)
    ensures
        r == json_of(*v).signed(),
{
    v.as_i64()
}

/// Calls `Value::as_bool`.
#[verifier::external_body]
pub(crate) fn value_as_bool(v: &serde_json::Value) -> (r: Option<bool>)
    ensures
        match json_of(*v) {
            Json::Bool(b) => r == Some(b),
            _ => r is None,
        },
{
    v.as_bool()
}

/// Calls `Value::as_array`: the elements of an array, in their order.
#[verifier::external_body]
pub(crate) fn value_as_array(v: &serde_json::Value) -> (r: Option<&Vec<serde_json::Value>>)
    ensures
        match json_of(*v).elements() {
            Some(x) => r is Some && json_seq(r->0@) == x,
            None => r is None,
        },
{
    v.as_array()
}

/// Calls `Value::is_object`.
#[verifier::external_body]
pub(crate) fn value_is_object(v: &serde_json::Value) -> (r: bool)
    ensures
        r == (json_of(*v) is Object),
{
    v.is_object()
}

/// Calls `Value::is_null`.
#[verifier::external_body]
pub(crate) fn value_is_null(v: &serde_json::Value) -> (r: bool)
    ensures
        r == (json_of(*v) is Null),
{
    v.is_null()
}

/// Calls `Value::as_number` and clones the number.
#[verifier::external_body]
pub(crate) fn value_as_number(v: &serde_json::Value) -> (r: Option<serde_json::Number>)
    ensures
        match json_of(*v) {
            Json::Number(n) => r is Some && number_of(r->0) == n,
            _ => r is None,
        },
{
    v.as_number().cloned()
}

/// Compares what `Number::as_f64` gives for two numbers: equal as floats.
#[verifier::external_body]
pub(crate) fn same_float(a: &serde_json::Number, b: &serde_json::Number) -> (r: bool)
    ensures
        r == floats_equal(float_bits_of(number_of(*a)), float_bits_of(number_of(*b))),
{
    a.as_f64() == b.as_f64()
}

/// Makes a `Value` of what `Number::as_f64` gives with `Value::from`. A number
/// that is a float stays as it is.
#[verifier::external_body]
pub(crate) fn value_float(n: &serde_json::Number) -> (r: serde_json::Value)
    ensures
        json_of(r) == Json::Number(
            JsonNumber::Float(
                match number_of(*n) {
                    JsonNumber::Float(bits) => bits,
                    other => integer_float_bits(other),
                },
            ),
        ),
{
    serde_json::Value::from(n.as_f64())
}

/// `Clone` of `serde_json::Number`: the same number.
pub assume_specification[ <serde_json::Number as Clone>::clone ](n: &serde_json::Number) -> (r:
    serde_json::Number)
    ensures
        number_of(r) == number_of(*n),
;

/// `Clone` of `serde_json::Value`: the same document.
pub assume_specification[ <serde_json::Value as Clone>::clone ](v: &serde_json::Value) -> (r:
    serde_json::Value)
    ensures
        json_of(r) == json_of(*v),
;

/// The variant `Value::Null`.
#[verifier::external_body]
pub(crate) fn value_null() -> (r: serde_json::Value)
    ensures
        json_of(r) == Json::Null,
{
    serde_json::Value::Null
}

/// The variant `Value::Bool`.
#[verifier::external_body]
pub(crate) fn value_bool(b: bool) -> (r: serde_json::Value)
    ensures
        json_of(r) == Json::Bool(b),
{
    serde_json::Value::Bool(b)
}

/// Makes a `Value` of an unsigned integer with `Value::from`.
#[verifier::external_body]
pub(crate) fn value_u64(n: u64) -> (r: serde_json::Value)
    ensures
        json_of(r) == Json::Number(JsonNumber::Unsigned(n)),
{
    serde_json::Value::from(n)
}

/// The variant `Value::String`.
#[verifier::external_body]
pub(crate) fn value_string(s: String) -> (r: serde_json::Value)
    ensures
        json_of(r) == Json::Text(s@),
{
    serde_json::Value::String(s)
}

/// The variant `Value::Array`.
#[verifier::external_body]
pub(crate) fn value_array(items: Vec<serde_json::Value>) -> (r: serde_json::Value)
    ensures
        json_of(r) == Json::Array(json_seq(items@)),
{
    serde_json::Value::Array(items)
}

/// The variant `Value::Object` with an empty `serde_json::Map`.
#[verifier::external_body]
pub(crate) fn value_object() -> (r: serde_json::Value)
    ensures
        json_of(r) == empty_object(),
{
    serde_json::Value::Object(serde_json::Map::new())
}

/// Assigns to `value[key]`: the member of that name is set, the others stay.
/// On anything but an object (or null) the index would panic.
#[verifier::external_body]
pub(crate) fn value_set(v: &mut serde_json::Value, key: &str, member: serde_json::Value)
    requires
        json_of(*old(v)) is Object,
    ensures
        json_of(*final(v)) == json_of(*old(v)).with(key@, json_of(member)),
{
    v[key] = member;
}

} // verus!
