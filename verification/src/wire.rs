//! The wire format: request bodies and queries as named text fields, in
//! order, with absent ones left out; and JSON answers as the texts that
//! they hold.

use serde_json::Value;
use vstd::prelude::*;

verus! {

/// `serde_json::Value`, a parsed JSON document, carried through as an opaque
/// value.
#[verifier::external_type_specification]
#[verifier::external_body]
pub struct ExJsonValue(serde_json::Value);

/// A list of named text fields as plain values.
pub type Fields = Seq<(Seq<char>, Seq<char>)>;

/// The fields that a vector of pairs holds, in its order.
pub open spec fn fields_view(fields: Seq<(String, String)>) -> Fields {
    fields.map_values(|f: (String, String)| (f.0@, f.1@))
}

/// The fields of an optional vector of pairs.
pub open spec fn query_view(query: Option<Vec<(String, String)>>) -> Option<Fields> {
    match query {
        Some(fields) => Some(fields_view(fields@)),
        None => None,
    }
}

/// An optional string as an optional character sequence.
pub open spec fn text_of(s: Option<String>) -> Option<Seq<char>> {
    match s {
        Some(t) => Some(t@),
        None => None,
    }
}

/// What an optional value adds to a list of fields: one field under `name`
/// where it is present, nothing where it is absent.
pub open spec fn optional_field(name: Seq<char>, value: Option<Seq<char>>) -> Fields {
    match value {
        Some(v) => seq![(name, v)],
        None => seq![],
    }
}

/// The text of the JSON object that `serde_json` writes for a list of
/// fields, each value a JSON string.
pub uninterp spec fn json_object_text(fields: Fields) -> Seq<char>;

/// `serde_json::Map::insert` for each field in turn, with the value as a
/// `serde_json::Value::String`, then `to_string` of the object: the JSON text
/// of the object, which depends on the fields alone.
#[verifier::external_body]
fn write_json_object(fields: &Vec<(String, String)>) -> (text: String)
    ensures
        text@ == json_object_text(fields_view(fields@)),
{
    let mut object = serde_json::Map::new();
    for field in fields.iter() {
        object.insert(field.0.clone(), serde_json::Value::String(field.1.clone()));
    }
    serde_json::Value::Object(object).to_string()
}

/// What `serde_json::from_str` makes of a text: the document that it holds,
/// or the reason why it holds none.
pub uninterp spec fn json_document(text: Seq<char>) -> Result<serde_json::Value, serde_json::Error>;

/// Whether a text is a JSON document.
pub open spec fn json_parses(text: Seq<char>) -> bool {
    json_document(text) is Ok
}

/// What a JSON text holds under a key, as far as the library tells values
/// apart.
pub enum JsonField {
    /// The text is no JSON object, or the object has no such key.
    Absent,
    /// The key holds `null`.
    Null,
    /// The key holds a string.
    Text(String),
    /// The key holds a value of another type.
    Other,
}

/// A field with its text as a character sequence.
pub enum JsonFieldView {
    Absent,
    Null,
    Text(Seq<char>),
    Other,
}

impl View for JsonField {
    type V = JsonFieldView;

    open spec fn view(&self) -> JsonFieldView {
        match self {
            JsonField::Absent => JsonFieldView::Absent,
            JsonField::Null => JsonFieldView::Null,
            JsonField::Text(t) => JsonFieldView::Text(t@),
            JsonField::Other => JsonFieldView::Other,
        }
    }
}

/// What `serde_json` finds under a key at the top level of a JSON text:
/// `Absent` where the text is no JSON, no object, or has no such key.
pub uninterp spec fn json_field(text: Seq<char>, key: Seq<char>) -> JsonFieldView;

/// The string under a key: `None` where there is no string there.
pub open spec fn json_text_field(text: Seq<char>, key: Seq<char>) -> Option<Seq<char>> {
    match json_field(text, key) {
        JsonFieldView::Text(t) => Some(t),
        _ => None,
    }
}

/// The string under a key that may be left out: no string where the key is
/// absent or holds `null`, the string where it holds one, and `None` where
/// it holds a value of another type, which is an error.
pub open spec fn json_optional_text(text: Seq<char>, key: Seq<char>) -> Option<Option<Seq<char>>> {
    match json_field(text, key) {
        JsonFieldView::Absent => Some(None),
        JsonFieldView::Null => Some(None),
        JsonFieldView::Text(t) => Some(Some(t)),
        JsonFieldView::Other => None,
    }
}

/// `serde_json::from_str` at `serde_json::Value`: the document that the text
/// holds or the reason why it holds none, which depends on the text alone.
#[verifier::external_body]
pub(crate) fn parse_json(text: &str) -> (parsed: Result<serde_json::Value, serde_json::Error>)
    ensures
        parsed == json_document(text@),
{
    serde_json::from_str(text)
}

/// `serde_json::from_str`, then `Value::get` with a key: what stands under
/// that key, told apart by the variant of `serde_json::Value`.
#[verifier::external_body]
pub(crate) fn parse_field(text: &str, key: &str) -> (field: JsonField)
    ensures
        field@ == json_field(text@, key@),
{
    let document: Value = match serde_json::from_str(text) {
        Ok(document) => document,
        Err(_) => return JsonField::Absent,
    };
    match document.get(key) {
        None => JsonField::Absent,
        Some(Value::Null) => JsonField::Null,
        Some(Value::String(t)) => JsonField::Text(t.clone()),
        Some(Value::Bool(_)) => JsonField::Other,
        Some(Value::Number(_)) => JsonField::Other,
        Some(Value::Array(_)) => JsonField::Other,
        Some(Value::Object(_)) => JsonField::Other,
    }
}

/// The string that a JSON text holds under a key, if it holds one there.
pub fn read_text_field(text: &str, key: &str) -> (field: Option<String>)
    ensures
        text_of(field) == json_text_field(text@, key@),
{
    match parse_field(text, key) {
        JsonField::Text(t) => Some(t),
        _ => None,
    }
}

/// The string that a JSON text holds under a key that may be left out:
/// `Some(None)` where the key is absent or holds `null`, the string where it
/// holds one, and `None` where it holds a value of another type.
pub fn read_optional_text(text: &str, key: &str) -> (field: Option<Option<String>>)
    ensures
        field is Some <==> json_optional_text(text@, key@) is Some,
        field matches Some(t) ==> Some(text_of(t)) == json_optional_text(text@, key@),
{
    match parse_field(text, key) {
        JsonField::Absent => Some(None),
        JsonField::Null => Some(None),
        JsonField::Text(t) => Some(Some(t)),
        JsonField::Other => None,
    }
}

/// What `serde_json::from_str` makes of a text that is read as an array:
/// the elements, each as the JSON text that `serde_json` writes for it, in
/// the array's order; or the reason why the text is no JSON array.
pub uninterp spec fn json_array(text: Seq<char>) -> Result<Seq<Seq<char>>, serde_json::Error>;

/// The elements of a JSON array, in the array's order: `None` where the
/// text is no JSON array.
pub open spec fn json_array_texts(text: Seq<char>) -> Option<Seq<Seq<char>>> {
    match json_array(text) {
        Ok(texts) => Some(texts),
        Err(_) => None,
    }
}

/// The texts that a vector of strings holds, in its order.
pub open spec fn texts_view(texts: Seq<String>) -> Seq<Seq<char>> {
    texts.map_values(|t: String| t@)
}

/// `serde_json::from_str` at a vector of `serde_json::Value`, then
/// `to_string` of each element: the elements of the array in their order, or
/// the reason why the text is no JSON array.
#[verifier::external_body]
pub(crate) fn parse_array(text: &str) -> (items: Result<Vec<String>, serde_json::Error>)
    ensures
        match items {
            Ok(texts) => json_array(text@) == Ok::<Seq<Seq<char>>, serde_json::Error>(
                texts_view(texts@),
            ),
            Err(cause) => json_array(text@) == Err::<Seq<Seq<char>>, serde_json::Error>(cause),
        },
{
    let elements: Vec<serde_json::Value> = match serde_json::from_str(text) {
        Ok(elements) => elements,
        Err(cause) => return Err(cause),
    };
    Ok(elements.iter().map(ToString::to_string).collect())
}

/// The error that `serde::de::Error::custom` makes of a message.
pub uninterp spec fn json_custom_error(message: Seq<char>) -> serde_json::Error;

/// `serde::de::Error::custom` of `serde_json::Error`: an error that says
/// `message`, which depends on the message alone.
#[verifier::external_body]
pub(crate) fn json_error(message: &str) -> (cause: serde_json::Error)
    ensures
        cause == json_custom_error(message@),
{
    <serde_json::Error as serde::de::Error>::custom(message)
}

/// Appends the field `name` with `value`.
pub fn push_field(fields: &mut Vec<(String, String)>, name: &str, value: &str)
    ensures
        fields_view(final(fields)@) == fields_view(old(fields)@).push((name@, value@)),
{
    fields.push((name.to_owned(), value.to_owned()));
    assert(fields_view(fields@) =~= fields_view(old(fields)@).push((name@, value@)));
}

/// Appends the field `name` where `value` is present, and nothing where it
/// is absent.
pub fn push_optional(fields: &mut Vec<(String, String)>, name: &str, value: &Option<String>)
    ensures
        fields_view(final(fields)@) == fields_view(old(fields)@) + optional_field(
            name@,
            text_of(*value),
        ),
{
    match value {
        Some(v) => {
            push_field(fields, name, v.as_str());
            assert(fields_view(fields@) =~= fields_view(old(fields)@) + optional_field(
                name@,
                text_of(*value),
            ));
        },
        None => {
            assert(fields_view(fields@) =~= fields_view(old(fields)@) + optional_field(
                name@,
                text_of(*value),
            ));
        },
    }
}

/// The JSON object that holds the given fields.
pub fn json_object(fields: &Vec<(String, String)>) -> (text: String)
    ensures
        text@ == json_object_text(fields_view(fields@)),
{
    write_json_object(fields)
}

} // verus!
