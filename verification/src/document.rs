//! JSON documents as `serde_json` reads them, and the mathematical value that
//! the rest of the crate reasons about.

use vstd::prelude::*;

verus! {

/// What a JSON document says.
pub enum JsonValue {
    /// `null`.
    Null,
    /// `true` or `false`.
    Bool(bool),
    /// A number. It carries its value where that is held as an unsigned
    /// integer of 64 bits, and nothing where the number is negative, has a
    /// fraction or an exponent, or is too large.
    Number(Option<u64>),
    /// A string.
    Text(Seq<char>),
    /// An array, in document order.
    Array(Seq<JsonValue>),
    /// An object. Each key occurs once.
    Object(Map<Seq<char>, JsonValue>),
}

impl JsonValue {
    /// The value under `key`, where `self` is an object that has the key.
    pub open spec fn member(self, key: Seq<char>) -> Option<JsonValue> {
        match self {
            JsonValue::Object(fields) => if fields.contains_key(key) {
                Some(fields[key])
            } else {
                None
            },
            _ => None,
        }
    }

    /// The items, where `self` is an array.
    pub open spec fn items(self) -> Option<Seq<JsonValue>> {
        match self {
            JsonValue::Array(items) => Some(items),
            _ => None,
        }
    }

    /// The characters, where `self` is a string.
    pub open spec fn text(self) -> Option<Seq<char>> {
        match self {
            JsonValue::Text(chars) => Some(chars),
            _ => None,
        }
    }

    /// The value, where `self` is a number that carries one.
    pub open spec fn unsigned(self) -> Option<u64> {
        match self {
            JsonValue::Number(n) => n,
            _ => None,
        }
    }
}

/// `serde_json::Value`, a parsed document. Opaque here: its content is read
/// through `member`, `as_array`, `as_str` and `as_u64`.
#[verifier::external_type_specification]
#[verifier::external_body]
pub struct ExValue(serde_json::Value);

/// `serde_json::Error`. Opaque here.
#[verifier::external_type_specification]
#[verifier::external_body]
pub struct ExError(serde_json::Error);

/// What a `serde_json::Value` holds.
pub uninterp spec fn document_model(doc: serde_json::Value) -> JsonValue;

/// What each of `docs` holds, in order.
pub open spec fn document_models(docs: Seq<serde_json::Value>) -> Seq<JsonValue> {
    docs.map_values(|doc: serde_json::Value| document_model(doc))
}

/// What `serde_json::from_str` makes of a text: the document, or the text of
/// the error it reports.
pub uninterp spec fn parse_outcome(text: Seq<char>) -> Result<JsonValue, Seq<char>>;

/// What `serde_json::Error` displays.
pub uninterp spec fn error_text(error: serde_json::Error) -> Seq<char>;

/// `serde_json::from_str::<serde_json::Value>`. The result depends on the
/// text alone; nothing is claimed about which texts parse.
#[verifier::external_body]
pub(crate) fn parse(text: &str) -> (r: Result<serde_json::Value, serde_json::Error>)
    ensures
        match r {
            Ok(doc) => parse_outcome(text@) == Ok::<JsonValue, Seq<char>>(document_model(doc)),
            Err(e) => parse_outcome(text@) == Err::<JsonValue, Seq<char>>(error_text(e)),
        },
{
    serde_json::from_str::<serde_json::Value>(text)
}

/// `to_string` on a `serde_json::Error`: the text that its `Display` writes.
#[verifier::external_body]
pub(crate) fn describe(error: &serde_json::Error) -> (r: String)
    ensures
        r@ == error_text(*error),
{
    error.to_string()
}

/// `serde_json::Value::get` with a string index: the value under `key` where
/// `doc` is an object that has the key, `None` for a missing key and for
/// anything that is not an object.
#[verifier::external_body]
pub(crate) fn member<'a>(doc: &'a serde_json::Value, key: &str) -> (r: Option<&'a serde_json::Value>)
    ensures
        match r {
            Some(v) => document_model(*doc).member(key@) == Some(document_model(*v)),
            None => document_model(*doc).member(key@) is None,
        },
{
    doc.get(key)
}

/// `serde_json::Value::as_array`: the items where `doc` is an array, else `None`.
pub assume_specification[ serde_json::Value::as_array ](doc: &serde_json::Value) -> (r: Option<&Vec<serde_json::Value>>)
    ensures
        match r {
            Some(items) => document_model(*doc).items() == Some(document_models(items@)),
            None => document_model(*doc).items() is None,
        },
;

/// `serde_json::Value::as_str`: the string where `doc` is one, else `None`.
pub assume_specification[ serde_json::Value::as_str ](doc: &serde_json::Value) -> (r: Option<&str>)
    ensures
        match r {
            Some(s) => document_model(*doc).text() == Some(s@),
            None => document_model(*doc).text() is None,
        },
;

/// `serde_json::Value::as_u64`: the value where `doc` is a number held as an
/// unsigned integer, else `None`.
pub assume_specification[ serde_json::Value::as_u64 ](doc: &serde_json::Value) -> (r: Option<u64>)
    ensures
        r == document_model(*doc).unsigned(),
;

} // verus!
