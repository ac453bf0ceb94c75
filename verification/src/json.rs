//! JSON documents as `serde_json` parses and prints them.
//!
//! A parsed value is kept as the `serde_json::Value` it is. Contracts speak of
//! it through its leaves: the strings and unsigned integers that are reached
//! from the root by a path of object keys. Arrays and the other scalars carry
//! no leaves; nothing in this crate reads them.

use vstd::prelude::*;
use vstd::utf8::encode_utf8;

verus! {

/// A scalar found at the end of a path of object keys.
pub enum JsonLeaf {
    /// A JSON string.
    Text(Seq<char>),
    /// A JSON number written as an integer from 0 to 2^64 - 1, without sign,
    /// fraction or exponent.
    Unsigned(u64),
}

/// A path of object keys, outermost first. The empty path is the root.
pub type JsonPath = Seq<Seq<char>>;

/// The leaves of a document, each under its path.
pub type JsonDoc = Map<Seq<Seq<char>>, JsonLeaf>;

#[verifier::external_type_specification]
#[verifier::external_body]
pub struct ExValue(serde_json::Value);

/// The leaves of a parsed value: a string or an unsigned integer has itself
/// as its only leaf, under the empty path; an object has the leaves of each
/// member, under the member's key followed by the leaf's path in the member;
/// every other value has none.
pub uninterp spec fn json_leaves(value: serde_json::Value) -> Map<Seq<Seq<char>>, JsonLeaf>;

/// What `serde_json::from_slice` makes of a byte string: the leaves of the
/// value it parses, or the text of the error it reports.
pub uninterp spec fn json_document(bytes: Seq<u8>) -> Result<
    Map<Seq<Seq<char>>, JsonLeaf>,
    Seq<char>,
>;

/// What `serde_json::to_string` prints for the object with the two string
/// members `first_key: first` and `second_key: second`, or the text of the
/// error it reports.
pub uninterp spec fn json_pair_text(
    first_key: Seq<char>,
    first: Seq<char>,
    second_key: Seq<char>,
    second: Seq<char>,
) -> Result<Seq<char>, Seq<char>>;

/// The part of `doc` that lies below the key `key`.
pub open spec fn member_doc(doc: JsonDoc, key: Seq<char>) -> JsonDoc {
    Map::new(
        |path: JsonPath| doc.contains_key(seq![key] + path),
        |path: JsonPath| doc[seq![key] + path],
    )
}

/// The string that `doc` holds at `path`, if it holds one there.
pub open spec fn text_at(doc: JsonDoc, path: JsonPath) -> Option<Seq<char>> {
    if doc.contains_key(path) {
        match doc[path] {
            JsonLeaf::Text(text) => Some(text),
            _ => None,
        }
    } else {
        None
    }
}

/// The unsigned integer that `doc` holds at `path`, if it holds one there.
pub open spec fn unsigned_at(doc: JsonDoc, path: JsonPath) -> Option<u64> {
    if doc.contains_key(path) {
        match doc[path] {
            JsonLeaf::Unsigned(number) => Some(number),
            _ => None,
        }
    } else {
        None
    }
}

/// The 32-bit unsigned integer that `doc` holds at `path`: a larger number
/// does not count.
pub open spec fn u32_at(doc: JsonDoc, path: JsonPath) -> Option<u32> {
    match unsigned_at(doc, path) {
        Some(number) if number <= u32::MAX => Some(number as u32),
        _ => None,
    }
}

/// The document of an object with two string members. A second member under
/// the key of the first takes its place.
pub open spec fn pair_doc(
    first_key: Seq<char>,
    first: Seq<char>,
    second_key: Seq<char>,
    second: Seq<char>,
) -> JsonDoc {
    Map::<JsonPath, JsonLeaf>::empty().insert(seq![first_key], JsonLeaf::Text(first)).insert(
        seq![second_key],
        JsonLeaf::Text(second),
    )
}

/// The detail reported for a document that parses but lacks a member of the
/// expected shape.
pub open spec fn shape_detail() -> Seq<char> {
    "missing or mistyped field"@
}

/// A type that is read out of a JSON document.
pub trait FromJson: View + Sized {
    /// The value that a document with these leaves holds, if it has the shape.
    spec fn in_doc(doc: JsonDoc) -> Option<Self::V>;

    /// Reads the value out of a parsed document.
    fn from_json(value: &serde_json::Value) -> (decoded: Option<Self>)
        ensures
            match decoded {
                Some(v) => Self::in_doc(json_leaves(*value)) == Some(v@),
                None => Self::in_doc(json_leaves(*value)) is None,
            },
    ;

    /// No value is read out of a document without leaves.
    proof fn lemma_empty_doc_holds_none()
        ensures
            Self::in_doc(Map::<JsonPath, JsonLeaf>::empty()) is None,
    ;
}

/// Calls `serde_json::from_slice` for a `Value`. The contract names the
/// outcome: on success the leaves of the value, on failure the text of the
/// parser's error.
#[verifier::external_body]
pub(crate) fn parse(bytes: &[u8]) -> (parsed: Result<serde_json::Value, String>)
    ensures
        match parsed {
            Ok(value) => json_document(bytes@) matches Ok(doc) && doc == json_leaves(value),
            Err(detail) => json_document(bytes@) matches Err(text) && text == detail@,
        },
{
    serde_json::from_slice::<serde_json::Value>(bytes).map_err(|error| error.to_string())
}

/// Calls `Value::get` with a string key. An object hands out the member
/// under that key, whose leaves are those of the object below the key; any
/// other value, and an object without the key, has no leaf below it.
#[verifier::external_body]
pub(crate) fn member<'a>(value: &'a serde_json::Value, key: &str) -> (found: Option<
    &'a serde_json::Value,
>)
    ensures
        match found {
            Some(inner) => json_leaves(*inner) == member_doc(json_leaves(*value), key@),
            None => member_doc(json_leaves(*value), key@) == Map::<JsonPath, JsonLeaf>::empty(),
        },
{
    value.get(key)
}

/// `Value::as_str` hands out the string of a JSON string and nothing for any
/// other value.
pub assume_specification[ serde_json::Value::as_str ](value: &serde_json::Value) -> (text: Option<
    &str,
>)
    ensures
        match text {
            Some(s) => text_at(json_leaves(*value), Seq::empty()) == Some(s@),
            None => text_at(json_leaves(*value), Seq::empty()) is None,
        },
;

/// `Value::as_u64` hands out the number of a JSON number that was written as
/// an integer from 0 to 2^64 - 1, and nothing for any other value.
pub assume_specification[ serde_json::Value::as_u64 ](value: &serde_json::Value) -> (number:
    Option<u64>)
    ensures
        number == unsigned_at(json_leaves(*value), Seq::empty()),
;

/// Builds the `serde_json` object with the two string members and calls
/// `serde_json::to_string` on it. The contract names the outcome, and claims
/// of a printed text that `serde_json::from_slice` reads the same two members
/// back from its bytes.
#[verifier::external_body]
pub(crate) fn print_pair(first_key: &str, first: &str, second_key: &str, second: &str) -> (printed:
    Result<String, String>)
    ensures
        match printed {
            Ok(text) => json_pair_text(first_key@, first@, second_key@, second@) matches Ok(t)
                && t == text@,
            Err(detail) => json_pair_text(first_key@, first@, second_key@, second@) matches Err(d)
                && d == detail@,
        },
        printed matches Ok(text) ==> (json_document(encode_utf8(text@)) matches Ok(doc) && doc
            == pair_doc(first_key@, first@, second_key@, second@)),
{
    let mut object = serde_json::Map::new();
    object.insert(first_key.to_owned(), serde_json::Value::String(first.to_owned()));
    object.insert(second_key.to_owned(), serde_json::Value::String(second.to_owned()));
    serde_json::to_string(&serde_json::Value::Object(object)).map_err(|error| error.to_string())
}

/// The outcome of parsing, as contracts see it.
pub open spec fn parsed_doc(parsed: Result<serde_json::Value, String>) -> Result<
    JsonDoc,
    Seq<char>,
> {
    match parsed {
        Ok(value) => Ok(json_leaves(value)),
        Err(detail) => Err(detail@),
    }
}

/// Below a key, a document holds at `path` what the whole holds at the key
/// followed by `path`.
pub proof fn lemma_member_doc_at(doc: JsonDoc, key: Seq<char>, path: JsonPath)
    ensures
        text_at(member_doc(doc, key), path) == text_at(doc, seq![key] + path),
        unsigned_at(member_doc(doc, key), path) == unsigned_at(doc, seq![key] + path),
        u32_at(member_doc(doc, key), path) == u32_at(doc, seq![key] + path),
{
}

/// The string under `key` in the object `value`.
pub fn read_text(value: &serde_json::Value, key: &str) -> (text: Option<String>)
    ensures
        match text {
            Some(s) => text_at(json_leaves(*value), seq![key@]) == Some(s@),
            None => text_at(json_leaves(*value), seq![key@]) is None,
        },
{
    proof {
        lemma_member_doc_at(json_leaves(*value), key@, Seq::empty());
        assert(seq![key@] + Seq::<Seq<char>>::empty() =~= seq![key@]);
    }
    match member(value, key) {
        Some(inner) => match inner.as_str() {
            Some(s) => Some(s.to_owned()),
            None => None,
        },
        None => None,
    }
}

/// The 32-bit unsigned integer under `key` in the object `value`.
pub fn read_u32(value: &serde_json::Value, key: &str) -> (number: Option<u32>)
    ensures
        number == u32_at(json_leaves(*value), seq![key@]),
{
    proof {
        lemma_member_doc_at(json_leaves(*value), key@, Seq::empty());
        assert(seq![key@] + Seq::<Seq<char>>::empty() =~= seq![key@]);
    }
    match member(value, key) {
        Some(inner) => match inner.as_u64() {
            Some(wide) => if wide <= 0xffff_ffff_u64 {
                Some(wide as u32)
            } else {
                None
            },
            None => None,
        },
        None => None,
    }
}

/// Reads a value of type `T` out of the member under `key` of the object
/// `value`.
pub fn read_member<T: FromJson>(value: &serde_json::Value, key: &str) -> (decoded: Option<T>)
    ensures
        match decoded {
            Some(v) => T::in_doc(member_doc(json_leaves(*value), key@)) == Some(v@),
            None => T::in_doc(member_doc(json_leaves(*value), key@)) is None,
        },
{
    proof {
        T::lemma_empty_doc_holds_none();
    }
    match member(value, key) {
        Some(inner) => T::from_json(inner),
        None => None,
    }
}

} // verus!
