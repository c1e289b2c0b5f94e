//! Reading JSON documents through `serde_json`.
//!
//! The parser is not verified. What it hands out is described here by a
//! mathematical model of a JSON value, [`Json`], and by two names: what a
//! `serde_json::Value` holds, and what document a text is read as. The
//! functions of `serde_json` that the library calls get contracts over that
//! model, and everything the library concludes from a document is proved
//! from them.

use vstd::prelude::*;

verus! {

/// A JSON value as a mathematical value.
pub enum Json {
    Null,
    Bool(bool),
    /// A whole number from 0 to `u64::MAX`, written without fraction or
    /// exponent.
    Unsigned(u64),
    /// Any other number.
    OtherNumber,
    Text(Seq<char>),
    Array(Seq<Json>),
    Object(Map<Seq<char>, Json>),
}

impl Json {
    /// The member under `key`, where this is an object that has one.
    pub open spec fn member(self, key: Seq<char>) -> Option<Json> {
        match self {
            Json::Object(members) => if members.contains_key(key) {
                Some(members[key])
            } else {
                None
            },
            _ => None,
        }
    }

    /// The text, where this is a text.
    pub open spec fn text(self) -> Option<Seq<char>> {
        match self {
            Json::Text(text) => Some(text),
            _ => None,
        }
    }

    /// The number, where this is a whole number that is not negative.
    pub open spec fn unsigned(self) -> Option<u64> {
        match self {
            Json::Unsigned(number) => Some(number),
            _ => None,
        }
    }

    /// The elements, where this is an array.
    pub open spec fn elements(self) -> Option<Seq<Json>> {
        match self {
            Json::Array(items) => Some(items),
            _ => None,
        }
    }
}

/// The texts of `items`, in order, where every one of them is a text.
pub open spec fn texts_of(items: Seq<Json>) -> Option<Seq<Seq<char>>> {
    if forall|i: int| 0 <= i < items.len() ==> (#[trigger] items[i]).text() is Some {
        Some(Seq::new(items.len(), |i: int| items[i].text()->0))
    } else {
        None
    }
}

/// The texts listed under `key` in a document: `None` unless the document is
/// an object, the member is there, and it is an array of texts.
pub open spec fn member_texts(document: Json, key: Seq<char>) -> Option<Seq<Seq<char>>> {
    match document.member(key) {
        Some(found) => match found.elements() {
            Some(items) => texts_of(items),
            None => None,
        },
        None => None,
    }
}

/// The number under `key` in a document: `None` unless the document is an
/// object, the member is there, and it is a whole number that is not
/// negative.
pub open spec fn member_unsigned(document: Json, key: Seq<char>) -> Option<u64> {
    match document.member(key) {
        Some(found) => found.unsigned(),
        None => None,
    }
}

/// `serde_json::Value`, a parsed JSON value. The verifier does not look
/// inside it: what it holds is named by [`json_of`].
#[verifier::external_type_specification]
#[verifier::external_body]
pub struct ExValue(serde_json::Value);

/// `serde_json::Error`, the error of a failed parse. Nothing is claimed of
/// it, and nothing is read from it.
#[verifier::external_type_specification]
#[verifier::external_body]
pub struct ExError(serde_json::Error);

/// What a `serde_json::Value` holds: `Null`, `Bool`, `String` and `Array`
/// as they are, a `Number` as [`Json::Unsigned`] where it is held as a
/// `u64` and as [`Json::OtherNumber`] where it is not, and an `Object` as
/// the map from its keys to what its values hold.
pub uninterp spec fn json_of(value: serde_json::Value) -> Json;

/// The document that `serde_json::from_str` reads from a text, or `None`
/// where it reports an error.
pub uninterp spec fn json_document(text: Seq<char>) -> Option<Json>;

/// Calls `serde_json::from_str` to read one JSON document from `text`. The
/// contract claims that the answer depends on the text alone: a value that
/// holds the document named by [`json_document`], or an error where there is
/// none.
#[verifier::external_body]
fn parse_document(text: &str) -> (r: Result<serde_json::Value, serde_json::Error>)
    ensures
        r is Ok <==> json_document(text@) is Some,
        r matches Ok(value) ==> json_document(text@) == Some(json_of(value)),
{
    serde_json::from_str::<serde_json::Value>(text)
}

/// Calls `serde_json::Value::get` with a text key. The contract claims what
/// the source of `get` shows: for an object that has the key, the value
/// under it, and nothing for any other value.
#[verifier::external_body]
fn member<'a>(value: &'a serde_json::Value, key: &str) -> (r: Option<&'a serde_json::Value>)
    ensures
        r is Some <==> json_of(*value).member(key@) is Some,
        r matches Some(found) ==> json_of(*value).member(key@) == Some(json_of(*found)),
{
    value.get(key)
}

/// `serde_json::Value::as_array` gives the vector of an array, element by
/// element, and nothing for any other value.
pub assume_specification<'a>[ serde_json::Value::as_array ](value: &'a serde_json::Value) -> (r:
    Option<&'a Vec<serde_json::Value>>)
    ensures
        r is Some <==> json_of(*value).elements() is Some,
        r matches Some(items) ==> json_of(*value).elements() == Some(
            items@.map_values(|item: serde_json::Value| json_of(item)),
        ),
;

/// `serde_json::Value::as_str` gives the text of a string, and nothing for
/// any other value.
pub assume_specification<'a>[ serde_json::Value::as_str ](value: &'a serde_json::Value) -> (r:
    Option<&'a str>)
    ensures
        r is Some <==> json_of(*value).text() is Some,
        r matches Some(text) ==> json_of(*value).text() == Some(text@),
;

/// `serde_json::Value::as_u64` gives the number where it is held as a
/// `u64`, and nothing for any other number or value.
pub assume_specification[ serde_json::Value::as_u64 ](value: &serde_json::Value) -> (r: Option<
    u64,
>)
    ensures
        r == json_of(*value).unsigned(),
;

/// Reads one JSON document from `text`; `None` where the text is not one.
pub fn read_document(text: &str) -> (r: Option<serde_json::Value>)
    ensures
        r is Some <==> json_document(text@) is Some,
        r matches Some(value) ==> json_document(text@) == Some(json_of(value)),
{
    match parse_document(text) {
        Ok(value) => Some(value),
        Err(_) => None,
    }
}

/// The texts of the elements of an array, in order; `None` where one of them
/// is not a text.
pub fn read_texts(items: &Vec<serde_json::Value>) -> (r: Option<Vec<String>>)
    ensures
        r.deep_view() == texts_of(items@.map_values(|item: serde_json::Value| json_of(item))),
{
    let ghost model = items@.map_values(|item: serde_json::Value| json_of(item));
    let mut texts: Vec<String> = Vec::new();
    let mut i: usize = 0;
    while i < items.len()
        invariant
            i <= items.len(),
            texts.len() == i,
            model == items@.map_values(|item: serde_json::Value| json_of(item)),
            forall|j: int| 0 <= j < i ==> (#[trigger] model[j]).text() == Some(texts@[j]@),
        decreases items.len() - i,
    {
        assert(model[i as int] == json_of(items@[i as int]));
        match items[i].as_str() {
            Some(text) => {
                texts.push(text.to_owned());
            },
            None => {
                return None;
            },
        }
        i += 1;
    }
    Some(texts)
}

/// The texts listed under `key` in `document`.
pub fn read_member_texts(document: &serde_json::Value, key: &str) -> (r: Option<Vec<String>>)
    ensures
        r.deep_view() == member_texts(json_of(*document), key@),
{
    match member(document, key) {
        Some(found) => match found.as_array() {
            Some(items) => read_texts(items),
            None => None,
        },
        None => None,
    }
}

/// The number under `key` in `document`.
pub fn read_member_unsigned(document: &serde_json::Value, key: &str) -> (r: Option<u64>)
    ensures
        r == member_unsigned(json_of(*document), key@),
{
    match member(document, key) {
        Some(found) => found.as_u64(),
        None => None,
    }
}

} // verus!
