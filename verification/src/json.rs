//! Reading JSON documents with `serde_json`.
//!
//! The parser and the document tree are `serde_json`'s; nothing here is proved
//! about them. Each call is given a name, and the readers built on top are
//! verified against those names.

use vstd::prelude::*;

verus! {

/// `serde_json::Value`, a parsed JSON document or a part of one; opaque to the
/// verifier.
#[verifier::external_type_specification]
#[verifier::external_body]
pub struct ExValue(serde_json::Value);

/// The document that `serde_json::from_str` makes of a text, `None` where it
/// rejects the text.
pub uninterp spec fn json_document(text: Seq<char>) -> Option<serde_json::Value>;

/// The member that `serde_json::Value::get` finds under a key, `None` where
/// the value is no object or has no such member.
pub uninterp spec fn json_member(value: serde_json::Value, key: Seq<char>) -> Option<
    serde_json::Value,
>;

/// The text that `serde_json::Value::as_str` reads from a value, `None` where
/// the value is no string.
pub uninterp spec fn json_text(value: serde_json::Value) -> Option<Seq<char>>;

/// The number that `serde_json::Value::as_u64` reads from a value, `None` where
/// the value is no integer between zero and `u64::MAX`.
pub uninterp spec fn json_number(value: serde_json::Value) -> Option<u64>;

/// The items that `serde_json::Value::as_array` reads from a value, `None`
/// where the value is no array.
pub uninterp spec fn json_items(value: serde_json::Value) -> Option<Seq<serde_json::Value>>;

/// What `serde_json::Value::is_null` answers for a value.
pub uninterp spec fn json_is_null(value: serde_json::Value) -> bool;

/// Calls `serde_json::from_str` for a `Value`. Trusted: the outcome depends on
/// the text alone, so it equals `json_document` of the text; the parser's
/// reason for rejecting a text is dropped.
#[verifier::external_body]
pub(crate) fn parse(text: &str) -> (r: Option<serde_json::Value>)
    ensures
        r == json_document(text@),
{
    serde_json::from_str::<serde_json::Value>(text).ok()
}

/// Calls `serde_json::Value::get` with a string key. Trusted: the member found
/// is `json_member` of the value and the key.
#[verifier::external_body]
pub(crate) fn member<'a>(value: &'a serde_json::Value, key: &str) -> (r: Option<
    &'a serde_json::Value,
>)
    ensures
        r is Some <==> json_member(*value, key@) is Some,
        r matches Some(m) ==> json_member(*value, key@) == Some(*m),
{
    value.get(key)
}

/// Calls `serde_json::Value::as_str`. Trusted: the text read is `json_text` of
/// the value.
#[verifier::external_body]
pub(crate) fn as_text<'a>(value: &'a serde_json::Value) -> (r: Option<&'a str>)
    ensures
        r is Some <==> json_text(*value) is Some,
        r matches Some(t) ==> json_text(*value) == Some(t@),
{
    value.as_str()
}

/// Calls `serde_json::Value::as_u64`. Trusted: the number read is `json_number`
/// of the value.
#[verifier::external_body]
pub(crate) fn as_number(value: &serde_json::Value) -> (r: Option<u64>)
    ensures
        r == json_number(*value),
{
    value.as_u64()
}

/// Calls `serde_json::Value::as_array`. Trusted: the items read are
/// `json_items` of the value.
#[verifier::external_body]
pub(crate) fn as_items<'a>(value: &'a serde_json::Value) -> (r: Option<&'a Vec<serde_json::Value>>)
    ensures
        r is Some <==> json_items(*value) is Some,
        r matches Some(items) ==> json_items(*value) == Some(items@),
{
    value.as_array()
}

/// Calls `serde_json::Value::is_null`. Trusted: the answer is `json_is_null` of
/// the value.
#[verifier::external_body]
pub(crate) fn is_null(value: &serde_json::Value) -> (r: bool)
    ensures
        r == json_is_null(*value),
{
    value.is_null()
}

/// The text under `key` in `doc`, where there is such a member and it is a
/// string.
pub open spec fn member_text(doc: serde_json::Value, key: Seq<char>) -> Option<Seq<char>> {
    match json_member(doc, key) {
        Some(m) => json_text(m),
        None => None,
    }
}

/// Reads the string member `key` of `doc`.
pub fn text_member(doc: &serde_json::Value, key: &str) -> (r: Option<String>)
    ensures
        r.deep_view() == member_text(*doc, key@),
{
    match member(doc, key) {
        Some(m) => match as_text(m) {
            Some(t) => Some(t.to_owned()),
            None => None,
        },
        None => None,
    }
}

/// The text under `key` in `doc` for a member that may be left out: no text
/// where the member is missing or null, and no answer at all (the outer
/// `None`) where it holds anything but a string.
pub open spec fn member_optional_text(doc: serde_json::Value, key: Seq<char>) -> Option<
    Option<Seq<char>>,
> {
    match json_member(doc, key) {
        None => Some(None),
        Some(m) => if json_is_null(m) {
            Some(None)
        } else {
            match json_text(m) {
                Some(t) => Some(Some(t)),
                None => None,
            }
        },
    }
}

/// Reads the string member `key` of `doc`, which may be missing or null.
pub fn optional_text_member(doc: &serde_json::Value, key: &str) -> (r: Option<Option<String>>)
    ensures
        r.deep_view() == member_optional_text(*doc, key@),
{
    match member(doc, key) {
        None => Some(None),
        Some(m) => if is_null(m) {
            Some(None)
        } else {
            match as_text(m) {
                Some(t) => Some(Some(t.to_owned())),
                None => None,
            }
        },
    }
}

/// The number under `key` in `doc`, where there is such a member and it is an
/// integer between zero and `u64::MAX`.
pub open spec fn member_number(doc: serde_json::Value, key: Seq<char>) -> Option<u64> {
    match json_member(doc, key) {
        Some(m) => json_number(m),
        None => None,
    }
}

/// Reads the number member `key` of `doc`.
pub fn number_member(doc: &serde_json::Value, key: &str) -> (r: Option<u64>)
    ensures
        r == member_number(*doc, key@),
{
    match member(doc, key) {
        Some(m) => as_number(m),
        None => None,
    }
}

/// Whether every item is an integer between zero and `u64::MAX`.
pub open spec fn all_numbers(items: Seq<serde_json::Value>) -> bool {
    forall|i: int| 0 <= i < items.len() ==> (#[trigger] json_number(items[i])) is Some
}

/// The numbers that the items hold, in order.
pub open spec fn numbers_of(items: Seq<serde_json::Value>) -> Seq<u64> {
    Seq::new(items.len(), |i: int| json_number(items[i]).unwrap())
}

/// The numbers under `key` in `doc`, where there is such a member and it is an
/// array of integers between zero and `u64::MAX`.
pub open spec fn member_numbers(doc: serde_json::Value, key: Seq<char>) -> Option<Seq<u64>> {
    match json_member(doc, key) {
        None => None,
        Some(m) => match json_items(m) {
            None => None,
            Some(items) => if all_numbers(items) {
                Some(numbers_of(items))
            } else {
                None
            },
        },
    }
}

/// Reads a list of numbers from the items of an array.
pub fn numbers_in(items: &Vec<serde_json::Value>) -> (r: Option<Vec<u64>>)
    ensures
        r.deep_view() == if all_numbers(items@) {
            Some(numbers_of(items@))
        } else {
            None
        },
{
    let mut numbers: Vec<u64> = Vec::new();
    let mut i: usize = 0;
    while i < items.len()
        invariant
            i <= items.len(),
            numbers@.len() == i,
            forall|k: int| 0 <= k < i ==> (#[trigger] json_number(items@[k])) == Some(numbers@[k]),
        decreases items.len() - i,
    {
        match as_number(&items[i]) {
            Some(n) => {
                numbers.push(n);
            },
            None => {
                assert(json_number(items@[i as int]) is None);
                return None;
            },
        }
        i = i + 1;
    }
    proof {
        assert(all_numbers(items@));
        assert(numbers@ =~= numbers_of(items@));
        assert(numbers.deep_view() =~= numbers@);
    }
    Some(numbers)
}

/// Reads the member `key` of `doc` as a list of numbers.
pub fn numbers_member(doc: &serde_json::Value, key: &str) -> (r: Option<Vec<u64>>)
    ensures
        r.deep_view() == member_numbers(*doc, key@),
{
    match member(doc, key) {
        None => None,
        Some(m) => match as_items(m) {
            None => None,
            Some(items) => numbers_in(items),
        },
    }
}

} // verus!
