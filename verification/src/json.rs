//! JSON, as `serde_json` reads and writes it.

use crate::text::{joined, joining_adds_part_by_part, texts};
use vstd::prelude::*;

verus! {

/// `serde_json::Value`, a parsed JSON document. It is carried, not looked into.
#[verifier::external_type_specification]
#[verifier::external_body]
pub struct ExJsonValue(serde_json::Value);

/// `serde_json::Error`, the reason why a text could not be read or written.
#[verifier::external_type_specification]
#[verifier::external_body]
pub struct ExJsonError(serde_json::Error);

/// The document that `serde_json::from_str` reads in a text; none if it reports an error.
pub uninterp spec fn parsed_json(text: Seq<char>) -> Option<serde_json::Value>;

/// The lower-case hexadecimal digit for a number below sixteen.
pub open spec fn hex_of(n: int) -> char {
    seq!['0', '1', '2', '3', '4', '5', '6', '7', '8', '9', 'a', 'b', 'c', 'd', 'e', 'f'][n]
}

/// A character as it stands in a JSON string: quotes, backslashes and control characters are
/// escaped, by a letter where there is one.
pub open spec fn json_char(c: char) -> Seq<char> {
    if c == '"' || c == '\\' {
        seq!['\\', c]
    } else if c == '\u{8}' {
        seq!['\\', 'b']
    } else if c == '\u{9}' {
        seq!['\\', 't']
    } else if c == '\u{a}' {
        seq!['\\', 'n']
    } else if c == '\u{c}' {
        seq!['\\', 'f']
    } else if c == '\u{d}' {
        seq!['\\', 'r']
    } else if c <= '\u{1f}' {
        seq!['\\', 'u', '0', '0', hex_of(c as int / 16), hex_of(c as int % 16)]
    } else {
        seq![c]
    }
}

/// A text as a JSON string.
pub open spec fn json_string(text: Seq<char>) -> Seq<char> {
    seq!['"'] + text.map_values(|c: char| json_char(c)).flatten() + seq!['"']
}

/// A list of texts as a JSON array, without white space.
pub open spec fn json_array(items: Seq<Seq<char>>) -> Seq<char> {
    seq!['['] + joined(items.map_values(|item: Seq<char>| json_string(item)), seq![','])
        + seq![']']
}

/// Calls `serde_json::from_str` for a `serde_json::Value`. Claimed: whether it succeeds, and
/// the document that it gives, follow from the text alone.
#[verifier::external_body]
fn parse_json(text: &str) -> (parsed: Result<serde_json::Value, serde_json::Error>)
    ensures
        match parsed {
            Ok(document) => parsed_json(text@) == Some(document),
            Err(_) => parsed_json(text@) is None,
        },
{
    serde_json::from_str::<serde_json::Value>(text)
}

/// Calls `serde_json::to_string` for a list of strings. Claimed: it succeeds, as strings always
/// serialize and writing to memory does not fail, and gives the compact JSON array.
#[verifier::external_body]
fn strings_to_json(items: &Vec<String>) -> (text: Result<String, serde_json::Error>)
    ensures
        text is Ok,
        text->Ok_0@ == json_array(texts(items@)),
{
    serde_json::to_string(items)
}

/// Whether `text` is JSON.
pub fn is_json(text: &str) -> (valid: bool)
    ensures
        valid == (parsed_json(text@) is Some),
{
    parse_json(text).is_ok()
}

/// Writes the strings as a JSON array.
pub fn encode_strings(items: &Vec<String>) -> (encoded: Result<String, String>)
    ensures
        encoded is Ok,
        encoded->Ok_0@ == json_array(texts(items@)),
{
    match strings_to_json(items) {
        Ok(text) => Ok(text),
        Err(error) => Err(error.to_string()),
    }
}

/// A character stands for itself in a JSON string, but that quotes and backslashes come behind a
/// backslash, and control characters behind one by letter or by number.
pub proof fn only_quotes_backslashes_and_control_characters_are_escaped(c: char)
    ensures
        c > '\u{1f}' && c != '"' && c != '\\' ==> json_char(c) == seq![c],
        c == '"' || c == '\\' ==> json_char(c) == seq!['\\', c],
        c <= '\u{1f}' ==> json_char(c).len() >= 2 && json_char(c)[0] == '\\',
        json_char('\u{8}') == seq!['\\', 'b'],
        json_char('\t') == seq!['\\', 't'],
        json_char('\n') == seq!['\\', 'n'],
        json_char('\u{c}') == seq!['\\', 'f'],
        json_char('\r') == seq!['\\', 'r'],
        forall|i: int| 0 <= i < json_char(c).len() ==> #[trigger] json_char(c)[i] > '\u{1f}',
{
}

/// A JSON string holds its text character by character between two quotes.
pub proof fn a_json_string_holds_its_text(text: Seq<char>, c: char)
    ensures
        json_string(Seq::empty()) == seq!['"', '"'],
        json_string(text).len() >= 2,
        json_string(text.push(c)) == json_string(text).drop_last() + json_char(c) + seq!['"'],
{
    let written = text.map_values(|c: char| json_char(c));
    let more = text.push(c).map_values(|c: char| json_char(c));
    assert(more == written.push(json_char(c)));
    written.lemma_flatten_push(json_char(c));
    let none = Seq::<char>::empty().map_values(|c: char| json_char(c));
    assert(none.len() == 0);
    assert(none.flatten() == Seq::<char>::empty());
    assert(json_string(Seq::empty()) == seq!['"', '"']);
    assert(json_string(text).drop_last() == seq!['"'] + written.flatten());
    assert(json_string(text.push(c)) == seq!['"'] + (written.flatten() + json_char(c)) + seq!['"']);
}

/// A JSON array holds each of its texts, in order, between two brackets: none for an empty list,
/// and each further one behind a comma.
pub proof fn a_json_array_holds_its_texts(items: Seq<Seq<char>>, item: Seq<char>)
    ensures
        json_array(Seq::empty()) == seq!['[', ']'],
        items.len() == 0 ==> json_array(items.push(item)) == seq!['['] + json_string(item)
            + seq![']'],
        items.len() > 0 ==> json_array(items.push(item)) == json_array(items).drop_last() + seq![
            ',',
        ] + json_string(item) + seq![']'],
{
    let written = items.map_values(|item: Seq<char>| json_string(item));
    let more = items.push(item).map_values(|item: Seq<char>| json_string(item));
    assert(more == written.push(json_string(item)));
    joining_adds_part_by_part(written, json_string(item), seq![',']);
    let none = Seq::<Seq<char>>::empty().map_values(|item: Seq<char>| json_string(item));
    assert(none == Seq::<Seq<char>>::empty());
    assert(json_array(Seq::empty()) == seq!['[', ']']);
    assert(json_array(items).drop_last() == seq!['['] + joined(written, seq![',']));
    if items.len() > 0 {
        assert(json_array(items.push(item)) == seq!['['] + (joined(written, seq![',']) + seq![',']
            + json_string(item)) + seq![']']);
    }
}

} // verus!
