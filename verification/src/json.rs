//! Decoded JSON documents, as far as this crate reads them: the strings that
//! lie under object keys.
//!
//! The decoder is `serde_json`. A decoded value is opaque here; what is said of
//! it is said over [`json_texts`], which stands for the strings of the value,
//! each filed under the sequence of object keys that leads to it:
//!
//! - a JSON string holds itself, under the empty sequence;
//! - an object holds, for each of its keys, what the member holds, with the key
//!   put in front of each sequence;
//! - null, a boolean, a number and an array hold nothing.
//!
//! Nothing in this module is proved of the decoder. The three functions that
//! call it say what they assume of it; the rest is proved from that.

use vstd::prelude::*;

verus! {

#[verifier::external_type_specification]
#[verifier::external_body]
pub struct ExValue(serde_json::Value);

#[verifier::external_type_specification]
#[verifier::external_body]
pub struct ExError(serde_json::Error);

/// The strings of a decoded value, each under the object keys that lead to it.
pub uninterp spec fn json_texts(value: serde_json::Value) -> Map<Seq<Seq<char>>, Seq<char>>;

/// The strings of the document that the bytes spell; `None` where the bytes are
/// no JSON document.
pub uninterp spec fn json_document(bytes: Seq<u8>) -> Option<Map<Seq<Seq<char>>, Seq<char>>>;

/// The part of `texts` that lies under the object key `key`.
pub open spec fn below(texts: Map<Seq<Seq<char>>, Seq<char>>, key: Seq<char>) -> Map<
    Seq<Seq<char>>,
    Seq<char>,
> {
    Map::new(
        |path: Seq<Seq<char>>| texts.contains_key(seq![key] + path),
        |path: Seq<Seq<char>>| texts[seq![key] + path],
    )
}

/// The string under `path`, if there is one.
pub open spec fn lookup(texts: Map<Seq<Seq<char>>, Seq<char>>, path: Seq<Seq<char>>) -> Option<
    Seq<char>,
> {
    if texts.contains_key(path) {
        Some(texts[path])
    } else {
        None
    }
}

/// Calls `serde_json::from_slice` for a `serde_json::Value`. Assumed: it
/// succeeds exactly on the bytes that spell a JSON document, and the value it
/// gives depends on the bytes alone.
#[verifier::external_body]
pub(crate) fn decode(bytes: &[u8]) -> (decoded: Result<serde_json::Value, serde_json::Error>)
    ensures
        match decoded {
            Ok(value) => json_document(bytes@) == Some(json_texts(value)),
            Err(_) => json_document(bytes@) is None,
        },
{
    serde_json::from_slice::<serde_json::Value>(bytes)
}

/// Calls `serde_json::Value::get` with a string key. Assumed: on an object that
/// has the key it gives the member, whose strings are those that the object
/// holds under that key; on anything else it gives nothing, and then the value
/// holds no string under that key.
#[verifier::external_body]
pub(crate) fn member<'a>(value: &'a serde_json::Value, key: &str) -> (found: Option<
    &'a serde_json::Value,
>)
    ensures
        match found {
            Some(inner) => json_texts(*inner) == below(json_texts(*value), key@),
            None => below(json_texts(*value), key@) == Map::<Seq<Seq<char>>, Seq<char>>::empty(),
        },
{
    value.get(key)
}

/// Calls `serde_json::Value::as_str`. Assumed: it gives the string where the
/// value is a JSON string, and nothing where it is anything else.
#[verifier::external_body]
pub(crate) fn text_of<'a>(value: &'a serde_json::Value) -> (text: Option<&'a str>)
    ensures
        match text {
            Some(s) => lookup(json_texts(*value), Seq::<Seq<char>>::empty()) == Some(s@),
            None => lookup(json_texts(*value), Seq::<Seq<char>>::empty()) is None,
        },
{
    value.as_str()
}

/// The string that `document` holds under the key `outer` and, beneath it, the
/// key `inner`; nothing where either key is absent or what lies there is no
/// string.
pub fn nested_text(document: &serde_json::Value, outer: &str, inner: &str) -> (found: Option<
    String,
>)
    ensures
        match found {
            Some(text) => lookup(json_texts(*document), seq![outer@, inner@]) == Some(text@),
            None => lookup(json_texts(*document), seq![outer@, inner@]) is None,
        },
{
    let ghost whole = json_texts(*document);
    let ghost nothing = Seq::<Seq<char>>::empty();
    proof {
        assert(seq![outer@] + seq![inner@] =~= seq![outer@, inner@]);
        assert(seq![inner@] + nothing =~= seq![inner@]);
    }
    match member(document, outer) {
        None => {
            assert(!below(whole, outer@).contains_key(seq![inner@]));
            None
        },
        Some(section) => {
            let ghost part = json_texts(*section);
            assert(part.contains_key(seq![inner@]) == whole.contains_key(seq![outer@, inner@]));
            assert(part.contains_key(seq![inner@]) ==> part[seq![inner@]] == whole[seq![
                outer@,
                inner@,
            ]]);
            match member(section, inner) {
                None => {
                    assert(!below(part, inner@).contains_key(nothing));
                    None
                },
                Some(leaf) => {
                    let ghost tip = json_texts(*leaf);
                    assert(tip.contains_key(nothing) == part.contains_key(seq![inner@]));
                    assert(tip.contains_key(nothing) ==> tip[nothing] == part[seq![inner@]]);
                    match text_of(leaf) {
                        None => None,
                        Some(text) => Some(text.to_owned()),
                    }
                },
            }
        },
    }
}

} // verus!
