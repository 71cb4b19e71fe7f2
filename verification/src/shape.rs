//! Reading the fields that a response must have out of a parsed document.

use vstd::prelude::*;
use crate::document::{document_model, document_models, member, JsonValue};

verus! {

/// A field that a response must have.
#[derive(Clone, Copy, Debug, PartialEq, Eq, Structural)]
pub enum Field {
    Skills,
    Name,
    Level,
    Xp,
    Items,
    Icon,
    IconLarge,
    Id,
    Type,
    TypeIcon,
    Description,
    Members,
}

impl Field {
    /// The key under which the services send the field.
    pub open spec fn key(self) -> Seq<char> {
        match self {
            Field::Skills => "skills"@,
            Field::Name => "name"@,
            Field::Level => "level"@,
            Field::Xp => "xp"@,
            Field::Items => "items"@,
            Field::Icon => "icon"@,
            Field::IconLarge => "icon_large"@,
            Field::Id => "id"@,
            Field::Type => "type"@,
            Field::TypeIcon => "typeIcon"@,
            Field::Description => "description"@,
            Field::Members => "members"@,
        }
    }

    /// The key under which the services send the field.
    pub fn wire_key(self) -> (r: &'static str)
        ensures
            r@ == self.key(),
    {
        match self {
            Field::Skills => "skills",
            Field::Name => "name",
            Field::Level => "level",
            Field::Xp => "xp",
            Field::Items => "items",
            Field::Icon => "icon",
            Field::IconLarge => "icon_large",
            Field::Id => "id",
            Field::Type => "type",
            Field::TypeIcon => "typeIcon",
            Field::Description => "description",
            Field::Members => "members",
        }
    }
}

/// Why a document does not have the shape of a response.
#[derive(Clone, Copy, Debug, PartialEq, Eq, Structural)]
pub enum ShapeError {
    /// The field is not there, or what should hold it is not an object.
    MissingField(Field),
    /// The field is there with a value of another type, or with a number
    /// too large for it.
    WrongType(Field),
}

impl ShapeError {
    /// The error in words.
    pub open spec fn description(self) -> Seq<char> {
        match self {
            ShapeError::MissingField(field) => "missing field `"@ + field.key() + "`"@,
            ShapeError::WrongType(field) => "invalid type for field `"@ + field.key() + "`"@,
        }
    }

    /// The error in words.
    pub fn describe(&self) -> (r: String)
        ensures
            r@ == self.description(),
    {
        match self {
            ShapeError::MissingField(field) => String::from_str("missing field `").concat(
                field.wire_key(),
            ).concat("`"),
            ShapeError::WrongType(field) => String::from_str("invalid type for field `").concat(
                field.wire_key(),
            ).concat("`"),
        }
    }
}

/// The string that `doc` holds under the field's key.
pub open spec fn text_at(doc: JsonValue, field: Field) -> Result<Seq<char>, ShapeError> {
    match doc.member(field.key()) {
        None => Err(ShapeError::MissingField(field)),
        Some(value) => match value.text() {
            None => Err(ShapeError::WrongType(field)),
            Some(chars) => Ok(chars),
        },
    }
}

/// The non-negative integer below 2^64 that `doc` holds under the field's key.
pub open spec fn u64_at(doc: JsonValue, field: Field) -> Result<u64, ShapeError> {
    match doc.member(field.key()) {
        None => Err(ShapeError::MissingField(field)),
        Some(value) => match value.unsigned() {
            None => Err(ShapeError::WrongType(field)),
            Some(n) => Ok(n),
        },
    }
}

/// The non-negative integer below 2^32 that `doc` holds under the field's key.
pub open spec fn u32_at(doc: JsonValue, field: Field) -> Result<u32, ShapeError> {
    match u64_at(doc, field) {
        Err(e) => Err(e),
        Ok(n) => if n <= u32::MAX {
            Ok(n as u32)
        } else {
            Err(ShapeError::WrongType(field))
        },
    }
}

/// The items of the array that `doc` holds under the field's key.
pub open spec fn items_at(doc: JsonValue, field: Field) -> Result<Seq<JsonValue>, ShapeError> {
    match doc.member(field.key()) {
        None => Err(ShapeError::MissingField(field)),
        Some(value) => match value.items() {
            None => Err(ShapeError::WrongType(field)),
            Some(items) => Ok(items),
        },
    }
}

/// Whether `field` reads the same in both documents, by each of the readers.
pub open spec fn reads_alike(first: JsonValue, second: JsonValue, field: Field) -> bool {
    &&& text_at(first, field) == text_at(second, field)
    &&& u64_at(first, field) == u64_at(second, field)
    &&& u32_at(first, field) == u32_at(second, field)
    &&& items_at(first, field) == items_at(second, field)
}

/// What an object holds under other keys has no part in what is read from
/// it: with one more key, or another value under one, every field under
/// another key reads as before.
pub proof fn lemma_other_keys_are_passed_over(
    fields: Map<Seq<char>, JsonValue>,
    key: Seq<char>,
    value: JsonValue,
    field: Field,
)
    requires
        key != field.key(),
    ensures
        reads_alike(JsonValue::Object(fields), JsonValue::Object(fields.insert(key, value)), field),
{
}

/// The view of what a decoding step returned.
pub open spec fn decoded<T: View>(r: Result<T, ShapeError>) -> Result<T::V, ShapeError> {
    match r {
        Ok(value) => Ok(value@),
        Err(e) => Err(e),
    }
}

/// Reads the string under the field's key.
pub fn read_text(doc: &serde_json::Value, field: Field) -> (r: Result<String, ShapeError>)
    ensures
        decoded(r) == text_at(document_model(*doc), field),
{
    match member(doc, field.wire_key()) {
        None => Err(ShapeError::MissingField(field)),
        Some(value) => match value.as_str() {
            None => Err(ShapeError::WrongType(field)),
            Some(s) => Ok(String::from_str(s)),
        },
    }
}

/// Reads the non-negative integer below 2^64 under the field's key.
pub fn read_u64(doc: &serde_json::Value, field: Field) -> (r: Result<u64, ShapeError>)
    ensures
        r == u64_at(document_model(*doc), field),
{
    match member(doc, field.wire_key()) {
        None => Err(ShapeError::MissingField(field)),
        Some(value) => match value.as_u64() {
            None => Err(ShapeError::WrongType(field)),
            Some(n) => Ok(n),
        },
    }
}

/// Reads the non-negative integer below 2^32 under the field's key.
pub fn read_u32(doc: &serde_json::Value, field: Field) -> (r: Result<u32, ShapeError>)
    ensures
        r == u32_at(document_model(*doc), field),
{
    let n: u64 = read_u64(doc, field)?;
    if n <= 0xffff_ffff {
        Ok(n as u32)
    } else {
        Err(ShapeError::WrongType(field))
    }
}

/// Reads the array under the field's key.
pub fn read_items<'a>(doc: &'a serde_json::Value, field: Field) -> (r: Result<
    &'a Vec<serde_json::Value>,
    ShapeError,
>)
    ensures
        match r {
            Ok(items) => items_at(document_model(*doc), field) == Ok::<Seq<JsonValue>, ShapeError>(
                document_models(items@),
            ),
            Err(e) => items_at(document_model(*doc), field) == Err::<Seq<JsonValue>, ShapeError>(e),
        },
{
    match member(doc, field.wire_key()) {
        None => Err(ShapeError::MissingField(field)),
        Some(value) => match value.as_array() {
            None => Err(ShapeError::WrongType(field)),
            Some(items) => Ok(items),
        },
    }
}

} // verus!
