//! The JSON values of the control channel. Reading and writing JSON text is
//! left to `serde_json`; this module declares its value type and states,
//! without proof, what each of the calls used here returns.

use vstd::prelude::*;

verus! {

/// `serde_json::Value`, carried through as an opaque value.
#[verifier::external_type_specification]
#[verifier::external_body]
pub struct ExJsonValue(serde_json::Value);

/// The value that `serde_json::from_str` reads from a text, if it is JSON.
pub uninterp spec fn json_parsed(text: Seq<char>) -> Option<serde_json::Value>;

/// The member that `Value::get` finds under a key of a JSON object.
pub uninterp spec fn json_member(value: serde_json::Value, key: Seq<char>) -> Option<
    serde_json::Value,
>;

/// The characters that `Value::as_str` gives for a JSON string.
pub uninterp spec fn json_text(value: serde_json::Value) -> Option<Seq<char>>;

/// The number that `Value::as_u64` gives for a JSON number that fits `u64`.
pub uninterp spec fn json_u64(value: serde_json::Value) -> Option<u64>;

/// The flag that `Value::as_bool` gives for a JSON boolean.
pub uninterp spec fn json_bool(value: serde_json::Value) -> Option<bool>;

/// The list that `serde_json::from_value` reads at type `Vec<u32>`.
pub uninterp spec fn json_u32_list(value: serde_json::Value) -> Option<Seq<u32>>;

/// The items that `Value::as_array` gives for a JSON array.
pub uninterp spec fn json_items(value: serde_json::Value) -> Option<Seq<serde_json::Value>>;

/// Whether `Value::is_null` holds of a value.
pub uninterp spec fn json_is_null(value: serde_json::Value) -> bool;

/// The lower-case hexadecimal digit of a number below sixteen.
pub open spec fn hex_digit(d: int) -> char {
    if d == 0 {
        '0'
    } else if d == 1 {
        '1'
    } else if d == 2 {
        '2'
    } else if d == 3 {
        '3'
    } else if d == 4 {
        '4'
    } else if d == 5 {
        '5'
    } else if d == 6 {
        '6'
    } else if d == 7 {
        '7'
    } else if d == 8 {
        '8'
    } else if d == 9 {
        '9'
    } else if d == 10 {
        'a'
    } else if d == 11 {
        'b'
    } else if d == 12 {
        'c'
    } else if d == 13 {
        'd'
    } else if d == 14 {
        'e'
    } else {
        'f'
    }
}

/// What stands for one character inside a JSON string literal: a
/// backslash and a letter for the quote, the backslash, backspace, tab,
/// line feed, form feed and carriage return; `\u00` and two hexadecimal
/// digits for every other character below the space; and the character
/// itself for all the rest.
pub open spec fn json_escaped(c: char) -> Seq<char> {
    let code = c as u32;
    if code == 0x22 {
        seq!['\\', '"']
    } else if code == 0x5c {
        seq!['\\', '\\']
    } else if code == 0x08 {
        seq!['\\', 'b']
    } else if code == 0x09 {
        seq!['\\', 't']
    } else if code == 0x0a {
        seq!['\\', 'n']
    } else if code == 0x0c {
        seq!['\\', 'f']
    } else if code == 0x0d {
        seq!['\\', 'r']
    } else if code < 0x20 {
        seq!['\\', 'u', '0', '0', hex_digit(code as int / 16), hex_digit(code as int % 16)]
    } else {
        seq![c]
    }
}

/// The characters of a text, each as it stands inside a JSON string
/// literal.
pub open spec fn json_escaped_text(text: Seq<char>) -> Seq<char>
    decreases text.len(),
{
    if text.len() == 0 {
        Seq::empty()
    } else {
        json_escaped_text(text.drop_last()) + json_escaped(text.last())
    }
}

/// The JSON string literal of a text: a quote, the characters with their
/// escapes, a quote.
pub open spec fn json_quoted(text: Seq<char>) -> Seq<char> {
    seq!['"'] + json_escaped_text(text) + seq!['"']
}

/// A JSON string literal holds no newline, whatever its text holds.
pub proof fn lemma_quoted_has_no_newline(text: Seq<char>)
    ensures
        forall|i: int| 0 <= i < json_quoted(text).len() ==> #[trigger] json_quoted(text)[i] != '\n',
{
    lemma_escaped_text_has_no_newline(text);
}

proof fn lemma_escaped_text_has_no_newline(text: Seq<char>)
    ensures
        forall|i: int|
            0 <= i < json_escaped_text(text).len() ==> #[trigger] json_escaped_text(text)[i]
                != '\n',
    decreases text.len(),
{
    if text.len() > 0 {
        lemma_escaped_text_has_no_newline(text.drop_last());
        let front = json_escaped_text(text.drop_last());
        let tail = json_escaped(text.last());
        assert(forall|i: int| 0 <= i < tail.len() ==> #[trigger] tail[i] != '\n');
        assert forall|i: int| 0 <= i < (front + tail).len() implies #[trigger] (front + tail)[i]
            != '\n' by {
            if i < front.len() {
                assert((front + tail)[i] == front[i]);
            } else {
                assert((front + tail)[i] == tail[i - front.len()]);
            }
        };
    }
}

/// Calls `serde_json::from_str` at type `Value`. Trusted: the result is the
/// parsed value, and `None` where the text is not one JSON value.
#[verifier::external_body]
pub(crate) fn parse(text: &str) -> (out: Option<serde_json::Value>)
    ensures
        out == json_parsed(text@),
{
    serde_json::from_str::<serde_json::Value>(text).ok()
}

/// Calls `Value::get` with a string key. Trusted: the result is the member
/// under that key, and `None` where the value is no object or lacks the key.
#[verifier::external_body]
pub(crate) fn member<'a>(value: &'a serde_json::Value, key: &str) -> (out: Option<
    &'a serde_json::Value,
>)
    ensures
        match out {
            Some(found) => json_member(*value, key@) == Some(*found),
            None => json_member(*value, key@) is None,
        },
{
    value.get(key)
}

/// Calls `Value::as_str`. Trusted: the result is the text of a JSON string,
/// and `None` for every other kind of value.
#[verifier::external_body]
pub(crate) fn text_of<'a>(value: &'a serde_json::Value) -> (out: Option<&'a str>)
    ensures
        match out {
            Some(text) => json_text(*value) == Some(text@),
            None => json_text(*value) is None,
        },
{
    value.as_str()
}

/// Calls `Value::as_u64`. Trusted: the result is the number where the value
/// is a non-negative integer that fits `u64`, and `None` otherwise.
#[verifier::external_body]
pub(crate) fn u64_of(value: &serde_json::Value) -> (out: Option<u64>)
    ensures
        out == json_u64(*value),
{
    value.as_u64()
}

/// Calls `Value::as_bool`. Trusted: the result is the flag of a JSON
/// boolean, and `None` for every other kind of value.
#[verifier::external_body]
pub(crate) fn bool_of(value: &serde_json::Value) -> (out: Option<bool>)
    ensures
        out == json_bool(*value),
{
    value.as_bool()
}

/// Calls `Value::is_null`. Trusted: the result tells whether the value is
/// JSON `null`.
#[verifier::external_body]
pub(crate) fn is_null(value: &serde_json::Value) -> (out: bool)
    ensures
        out == json_is_null(*value),
{
    value.is_null()
}

/// Calls `serde_json::from_value` at type `Vec<u32>`, on a copy of the
/// value. Trusted: the result is the list where the value is a JSON array
/// of integers that each fit `u32`, and `None` otherwise.
#[verifier::external_body]
pub(crate) fn u32_list_of(value: &serde_json::Value) -> (out: Option<Vec<u32>>)
    ensures
        match out {
            Some(list) => json_u32_list(*value) == Some(list@),
            None => json_u32_list(*value) is None,
        },
{
    serde_json::from_value::<Vec<u32>>(value.clone()).ok()
}

/// Calls `Value::as_array`, and copies the items. Trusted: the result
/// holds the items of a JSON array in their order, and is `None` for every
/// other kind of value.
#[verifier::external_body]
pub(crate) fn items_of(value: &serde_json::Value) -> (out: Option<Vec<serde_json::Value>>)
    ensures
        match out {
            Some(items) => json_items(*value) == Some(items@),
            None => json_items(*value) is None,
        },
{
    value.as_array().cloned()
}

/// Calls `Clone::clone` of `Value`. Trusted: the copy equals the value.
#[verifier::external_body]
pub(crate) fn copy_of(value: &serde_json::Value) -> (out: serde_json::Value)
    ensures
        out == *value,
{
    value.clone()
}

/// Calls `serde_json::to_string` on a string slice. Trusted: the result is
/// the JSON string literal of the text, as `json_quoted` spells it out.
#[verifier::external_body]
pub(crate) fn quote(text: &str) -> (out: String)
    ensures
        out@ == json_quoted(text@),
{
    serde_json::to_string(text).unwrap_or_default()
}

} // verus!
