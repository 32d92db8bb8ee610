//! JSON values as the API sends them, and the readers of resource attributes.
use serde_json::Value;
use vstd::prelude::*;

verus! {

/// The JSON tree of `serde_json`. What it holds is named by [`json_of`].
#[verifier::external_type_specification]
#[verifier::external_body]
pub struct ExValue(serde_json::Value);

/// A double-precision number, held as its IEEE 754 bits.
#[derive(Clone, Copy, Debug, PartialEq, Eq, Structural)]
pub struct Scalar {
    pub bits: u64,
}

impl View for Scalar {
    type V = Scalar;

    open spec fn view(&self) -> Scalar {
        *self
    }
}

impl Scalar {
    /// Whether the sign bit is set, as it is for every number below zero, for minus zero and
    /// for a negated NaN.
    pub open spec fn negative(self) -> bool {
        self.bits >= 0x8000_0000_0000_0000
    }

    /// Whether the sign bit is set.
    pub fn is_sign_negative(&self) -> (negative: bool)
        ensures
            negative == self.negative(),
    {
        self.bits >= 0x8000_0000_0000_0000
    }
}

/// What a JSON value says. A number is the double nearest to it.
pub ghost enum Json {
    Null,
    Bool(bool),
    Number(Scalar),
    Text(Seq<char>),
    Array(Seq<Json>),
    Object(Map<Seq<char>, Json>),
}

/// The contents of a `serde_json::Value`.
pub uninterp spec fn json_of(value: serde_json::Value) -> Json;

impl Json {
    /// The member of an object under `key`.
    pub open spec fn member(self, key: Seq<char>) -> Option<Json> {
        match self {
            Json::Object(members) => if members.contains_key(key) {
                Some(members[key])
            } else {
                None
            },
            _ => None,
        }
    }

    /// The members of an object. Null is like an object without members.
    pub open spec fn members(self) -> Option<Map<Seq<char>, Json>> {
        match self {
            Json::Object(members) => Some(members),
            Json::Null => Some(Map::empty()),
            _ => None,
        }
    }

    /// The text of a string.
    pub open spec fn text(self) -> Option<Seq<char>> {
        match self {
            Json::Text(text) => Some(text),
            _ => None,
        }
    }

    /// The value of a number.
    pub open spec fn number(self) -> Option<Scalar> {
        match self {
            Json::Number(number) => Some(number),
            _ => None,
        }
    }
}

/// `serde_json::Value::get` with a text index: the member of an object under that key, and
/// nothing for any other kind of value or an absent key.
#[verifier::external_body]
fn value_member<'a>(value: &'a Value, key: &str) -> (member: Option<&'a Value>)
    ensures
        contents(member) == json_of(*value).member(key@),
{
    value.get(key)
}

/// `serde_json::Value::as_str`: the text of a string, and nothing for any other kind of value.
#[verifier::external_body]
fn value_text(value: &Value) -> (text: Option<&str>)
    ensures
        text.deep_view() == json_of(*value).text(),
{
    value.as_str()
}

/// `serde_json::Value::as_f64`: the double that a number stands for, and nothing for any other
/// kind of value. The double is handed on as its bits.
#[verifier::external_body]
fn value_number(value: &Value) -> (number: Option<Scalar>)
    ensures
        number == json_of(*value).number(),
{
    value.as_f64().map(|number| Scalar { bits: number.to_bits() })
}

/// `serde_json::Value::default`: the JSON null.
#[verifier::external_body]
fn null_value() -> (value: Value)
    ensures
        json_of(value) == Json::Null,
{
    Value::default()
}

/// `serde_json::Value::from` on a text: the JSON string with that text.
#[verifier::external_body]
pub(crate) fn text_value(text: &str) -> (value: Value)
    ensures
        json_of(value) == Json::Text(text@),
{
    Value::from(text)
}

/// `serde_json::Value::clone`: a second tree with the same contents.
#[verifier::external_body]
pub(crate) fn copy_value(value: &Value) -> (copy: Value)
    ensures
        json_of(copy) == json_of(*value),
{
    value.clone()
}

/// Assignment through `serde_json::Value`'s `IndexMut` with a text index: puts a member into an
/// object under that key, in place of any that was there. Null stands for an object without
/// members. Indexing any other kind of value panics.
#[verifier::external_body]
fn put_member(object: &mut Value, key: &str, member: Value)
    requires
        json_of(*old(object)).members() is Some,
    ensures
        json_of(*final(object)) == Json::Object(
            json_of(*old(object)).members()->0.insert(key@, json_of(member)),
        ),
{
    object[key] = member;
}

/// Makes an object with one member.
pub(crate) fn object_value(key: &str, member: Value) -> (value: Value)
    ensures
        json_of(value) == Json::Object(map![key@ => json_of(member)]),
{
    let mut value = null_value();
    put_member(&mut value, key, member);
    value
}

/// Puts a member into an object under `key`, in place of any that was there.
pub(crate) fn with_member(object: Value, key: &str, member: Value) -> (value: Value)
    requires
        json_of(object).members() is Some,
    ensures
        json_of(value) == Json::Object(json_of(object).members()->0.insert(key@, json_of(member))),
{
    let mut value = object;
    put_member(&mut value, key, member);
    value
}

/// What milliseconds since the Unix epoch an RFC 3339 date and time stands for, or `None` for a
/// text that is no such date.
pub uninterp spec fn rfc3339_millis(text: Seq<char>) -> Option<i64>;

/// `chrono::DateTime::parse_from_rfc3339`: reads a date and time with its offset, which is
/// handed on as milliseconds since the Unix epoch.
#[verifier::external_body]
fn parse_timestamp(text: &str) -> (millis: Option<i64>)
    ensures
        millis == rfc3339_millis(text@),
{
    chrono::DateTime::parse_from_rfc3339(text).ok().map(|time| time.timestamp_millis())
}

/// What an optional JSON value says.
pub open spec fn contents(value: Option<&Value>) -> Option<Json> {
    match value {
        Some(present) => Some(json_of(*present)),
        None => None,
    }
}

/// What an optional JSON value says.
pub open spec fn document(value: Option<Value>) -> Option<Json> {
    match value {
        Some(present) => Some(json_of(present)),
        None => None,
    }
}

/// Copies an optional JSON value.
pub(crate) fn copy_document(value: &Option<Value>) -> (copy: Option<Value>)
    ensures
        document(copy) == document(*value),
{
    match value {
        Some(present) => Some(copy_value(present)),
        None => None,
    }
}

/// The member of an optional object under `key`.
pub open spec fn member_of(value: Option<Json>, key: Seq<char>) -> Option<Json> {
    match value {
        Some(present) => present.member(key),
        None => None,
    }
}

/// The text at `key`.
pub open spec fn text_at(attributes: Option<Json>, key: Seq<char>) -> Option<Seq<char>> {
    match member_of(attributes, key) {
        Some(found) => found.text(),
        None => None,
    }
}

/// The text at `key` and, within it, `inner`.
pub open spec fn nested_text_at(
    attributes: Option<Json>,
    key: Seq<char>,
    inner: Seq<char>,
) -> Option<Seq<char>> {
    text_at(member_of(attributes, key), inner)
}

/// The number at `key` and, within it, `inner`.
pub open spec fn nested_number_at(
    attributes: Option<Json>,
    key: Seq<char>,
    inner: Seq<char>,
) -> Option<Scalar> {
    match member_of(member_of(attributes, key), inner) {
        Some(found) => found.number(),
        None => None,
    }
}

/// The date and time at `key` and, within it, `inner`, in milliseconds since the Unix epoch.
pub open spec fn nested_millis_at(
    attributes: Option<Json>,
    key: Seq<char>,
    inner: Seq<char>,
) -> Option<i64> {
    match nested_text_at(attributes, key, inner) {
        Some(text) => rfc3339_millis(text),
        None => None,
    }
}

/// The identifier of the one resource that a relationship points to.
pub open spec fn related_id(relationships: Option<Json>, key: Seq<char>) -> Option<Seq<char>> {
    text_at(member_of(member_of(relationships, key), "data"@), "id"@)
}

fn member<'a>(value: Option<&'a Value>, key: &str) -> (found: Option<&'a Value>)
    ensures
        contents(found) == member_of(contents(value), key@),
{
    match value {
        Some(present) => value_member(present, key),
        None => None,
    }
}

/// Reads the text at `key`.
pub fn string_attr(attributes: Option<&Value>, key: &str) -> (text: Option<String>)
    ensures
        text.deep_view() == text_at(contents(attributes), key@),
{
    match member(attributes, key) {
        Some(value) => match value_text(value) {
            Some(text) => Some(text.to_owned()),
            None => None,
        },
        None => None,
    }
}

/// Reads the text at `key` and, within it, `nested_key`.
pub fn string_nested_attr(
    attributes: Option<&Value>,
    key: &str,
    nested_key: &str,
) -> (text: Option<String>)
    ensures
        text.deep_view() == nested_text_at(contents(attributes), key@, nested_key@),
{
    string_attr(member(attributes, key), nested_key)
}

/// Reads the number at `key` and, within it, `nested_key`.
pub fn number_nested_attr(
    attributes: Option<&Value>,
    key: &str,
    nested_key: &str,
) -> (number: Option<Scalar>)
    ensures
        number == nested_number_at(contents(attributes), key@, nested_key@),
{
    match member(member(attributes, key), nested_key) {
        Some(value) => value_number(value),
        None => None,
    }
}

/// Reads the RFC 3339 date at `key` and, within it, `nested_key`, in milliseconds since the
/// Unix epoch.
pub fn timestamp_nested_attr(
    attributes: Option<&Value>,
    key: &str,
    nested_key: &str,
) -> (millis: Option<i64>)
    ensures
        millis == nested_millis_at(contents(attributes), key@, nested_key@),
{
    match member(member(attributes, key), nested_key) {
        Some(value) => match value_text(value) {
            Some(text) => parse_timestamp(text),
            None => None,
        },
        None => None,
    }
}

/// Reads the identifier of the one resource that the relationship `key` points to.
pub fn relationship_one_id(relationships: Option<&Value>, key: &str) -> (id: Option<String>)
    ensures
        id.deep_view() == related_id(contents(relationships), key@),
{
    string_attr(member(member(relationships, key), "data"), "id")
}

/// A text is read where an object has that text under the key, and nowhere else.
pub proof fn texts_are_read_by_key(attributes: Option<Json>, key: Seq<char>, text: Seq<char>)
    ensures
        text_at(attributes, key) == Some(text) <==> (attributes matches Some(Json::Object(members))
            && members.contains_key(key) && members[key] == Json::Text(text)),
{
}

/// A nested text is read where an object has under the key an object that has that text under
/// the inner key, and nowhere else.
pub proof fn nested_texts_are_read_by_keys(
    attributes: Option<Json>,
    key: Seq<char>,
    inner: Seq<char>,
    text: Seq<char>,
)
    ensures
        nested_text_at(attributes, key, inner) == Some(text) <==> (attributes matches Some(
            Json::Object(members),
        ) && members.contains_key(key) && (members[key] matches Json::Object(nested)
            && nested.contains_key(inner) && nested[inner] == Json::Text(text))),
{
}

/// A nested number is read where an object has under the key an object that has that number
/// under the inner key, and nowhere else.
pub proof fn nested_numbers_are_read_by_keys(
    attributes: Option<Json>,
    key: Seq<char>,
    inner: Seq<char>,
    number: Scalar,
)
    ensures
        nested_number_at(attributes, key, inner) == Some(number) <==> (attributes matches Some(
            Json::Object(members),
        ) && members.contains_key(key) && (members[key] matches Json::Object(nested)
            && nested.contains_key(inner) && nested[inner] == Json::Number(number))),
{
}

/// A nested moment is read where an object has under the key an object that has under the inner
/// key a text that is a date for that moment, and nowhere else.
pub proof fn nested_moments_are_read_by_keys(
    attributes: Option<Json>,
    key: Seq<char>,
    inner: Seq<char>,
    millis: i64,
)
    ensures
        nested_millis_at(attributes, key, inner) == Some(millis) <==> (attributes matches Some(
            Json::Object(members),
        ) && members.contains_key(key) && (members[key] matches Json::Object(nested)
            && nested.contains_key(inner) && (nested[inner] matches Json::Text(text)
            && rfc3339_millis(text) == Some(millis)))),
{
}

/// A relationship names a resource where it has under its key an object with `data`, which is an
/// object with a text under `id`, and nowhere else.
pub proof fn relationships_are_read_by_key(
    relationships: Option<Json>,
    key: Seq<char>,
    id: Seq<char>,
)
    ensures
        related_id(relationships, key) == Some(id) <==> (relationships matches Some(
            Json::Object(members),
        ) && members.contains_key(key) && (members[key] matches Json::Object(relation)
            && relation.contains_key("data"@) && (relation["data"@] matches Json::Object(data)
            && data.contains_key("id"@) && data["id"@] == Json::Text(id)))),
{
}

/// An optional value says what is in it.
pub proof fn documents_say_what_they_hold(value: Option<Value>)
    ensures
        document(value) == (match value {
            Some(present) => Some(json_of(present)),
            None => None,
        }),
{
}

/// A number is negative exactly where its highest bit is set.
pub proof fn negative_is_the_sign_bit(number: Scalar)
    ensures
        number.negative() <==> number.bits & 0x8000_0000_0000_0000u64 != 0,
{
    let bits = number.bits;
    assert(bits >= 0x8000_0000_0000_0000u64 <==> bits & 0x8000_0000_0000_0000u64 != 0)
        by (bit_vector);
}

}
