//! JSON and YAML documents, as `serde_json` and `serde_yaml` read them.
//!
//! A parsed document is a `serde_json::Value`. To the verifier it is opaque.
//! What stands for a document in contracts is its compact JSON text, which
//! has the name [`json_text`]; what the two crates make of bytes and of
//! documents is named below over such texts, and the functions of this
//! module say which of the crates' functions each name stands for.

use vstd::prelude::*;

verus! {

/// `serde_json::Value`, a parsed document. Nothing is claimed of the type
/// itself; it is declared so that a document can be carried through.
#[verifier::external_type_specification]
#[verifier::external_body]
pub struct ExValue(serde_json::Value);

/// The compact JSON text of `doc`. Two documents with one text hold the
/// same values in the same order.
pub uninterp spec fn json_text(doc: serde_json::Value) -> Seq<char>;

/// The compact JSON text of the document that the bytes of a JSON text
/// stand for, or the parser's complaint where they are not one JSON value.
pub uninterp spec fn json_document(bytes: Seq<u8>) -> Result<Seq<char>, Seq<char>>;

/// The compact JSON text of the document that the bytes of a YAML text
/// stand for, or the parser's complaint where they are not one YAML
/// document that JSON can express.
pub uninterp spec fn yaml_document(bytes: Seq<u8>) -> Result<Seq<char>, Seq<char>>;

/// The string that the document with the compact text `document` holds at
/// the JSON pointer `pointer`; `None` where the pointer leads nowhere or to
/// something other than a string.
pub uninterp spec fn json_string_at(document: Seq<char>, pointer: Seq<char>) -> Option<Seq<char>>;

/// The compact texts of the elements, in their order, of the array that
/// the document with the compact text `document` holds at the JSON pointer
/// `pointer`; `None` where the pointer leads nowhere or to something other
/// than an array.
pub uninterp spec fn json_items_at(document: Seq<char>, pointer: Seq<char>) -> Option<
    Seq<Seq<char>>,
>;

/// What a document holds at a place: nothing, or a value of one of the six
/// kinds that JSON has.
#[derive(Clone, Copy, Debug, PartialEq, Eq, Structural)]
pub enum JsonKind {
    Absent,
    Null,
    Boolean,
    Number,
    Text,
    Array,
    Object,
}

/// What the document with the compact text `document` holds at the JSON
/// pointer `pointer`: the kind of the value there, or `Absent` where the
/// pointer leads nowhere.
pub uninterp spec fn json_kind_at(document: Seq<char>, pointer: Seq<char>) -> JsonKind;

/// The string that a document holds at a place where a string may stand
/// but need not: the string where there is one, none where the place is
/// absent or holds `null`, and for every other value its kind, which is
/// then the fault.
pub open spec fn optional_string(document: Seq<char>, pointer: Seq<char>) -> Result<
    Option<Seq<char>>,
    JsonKind,
> {
    match json_string_at(document, pointer) {
        Some(s) => Ok(Some(s)),
        None => match json_kind_at(document, pointer) {
            JsonKind::Absent | JsonKind::Null => Ok(None),
            other => Err(other),
        },
    }
}

/// The character view of an optional string as a document holds it.
pub open spec fn optional_view(field: Result<Option<String>, JsonKind>) -> Result<
    Option<Seq<char>>,
    JsonKind,
> {
    match field {
        Ok(Some(s)) => Ok(Some(s@)),
        Ok(None) => Ok(None),
        Err(kind) => Err(kind),
    }
}

/// The compact texts of a list of documents.
pub open spec fn json_texts(docs: Seq<serde_json::Value>) -> Seq<Seq<char>> {
    docs.map_values(|doc: serde_json::Value| json_text(doc))
}

/// `serde_json::from_slice`, read as a `serde_json::Value`. The contract
/// claims only that the outcome is the one named `json_document` for these
/// bytes: a document with that compact text, or the `Display` text of the
/// `serde_json::Error`.
#[verifier::external_body]
pub(crate) fn parse_json(bytes: &[u8]) -> (r: Result<serde_json::Value, String>)
    ensures
        match r {
            Ok(doc) => json_document(bytes@) == Ok::<Seq<char>, Seq<char>>(json_text(doc)),
            Err(complaint) => json_document(bytes@) == Err::<Seq<char>, Seq<char>>(complaint@),
        },
{
    match serde_json::from_slice::<serde_json::Value>(bytes) {
        Ok(doc) => Ok(doc),
        Err(e) => Err(e.to_string()),
    }
}

/// `serde_yaml::from_slice`, read as a `serde_json::Value`. The contract
/// claims only that the outcome is the one named `yaml_document` for these
/// bytes: a document with that compact text, or the `Display` text of the
/// `serde_yaml::Error`.
#[verifier::external_body]
pub(crate) fn parse_yaml(bytes: &[u8]) -> (r: Result<serde_json::Value, String>)
    ensures
        match r {
            Ok(doc) => yaml_document(bytes@) == Ok::<Seq<char>, Seq<char>>(json_text(doc)),
            Err(complaint) => yaml_document(bytes@) == Err::<Seq<char>, Seq<char>>(complaint@),
        },
{
    match serde_yaml::from_slice::<serde_json::Value>(bytes) {
        Ok(doc) => Ok(doc),
        Err(e) => Err(e.to_string()),
    }
}

/// `serde_json::Value::pointer`, then `serde_json::Value::as_str` on what
/// the pointer leads to. The contract claims only that the outcome is the
/// one named `json_string_at` for the text of the document.
#[verifier::external_body]
pub(crate) fn string_at(doc: &serde_json::Value, pointer: &str) -> (r: Option<String>)
    ensures
        match r {
            Some(s) => json_string_at(json_text(*doc), pointer@) == Some(s@),
            None => json_string_at(json_text(*doc), pointer@) is None,
        },
{
    match doc.pointer(pointer) {
        Some(node) => match node.as_str() {
            Some(s) => Some(s.to_owned()),
            None => None,
        },
        None => None,
    }
}

/// `serde_json::Value::pointer`, then `serde_json::Value::as_array` on what
/// the pointer leads to; the elements are handed out as copies. The contract
/// claims only that the outcome is the one named `json_items_at` for the
/// text of the document: the elements have those texts, in that order.
#[verifier::external_body]
pub(crate) fn items_at(doc: &serde_json::Value, pointer: &str) -> (r: Option<
    Vec<serde_json::Value>,
>)
    ensures
        match r {
            Some(items) => json_items_at(json_text(*doc), pointer@) == Some(json_texts(items@)),
            None => json_items_at(json_text(*doc), pointer@) is None,
        },
{
    match doc.pointer(pointer) {
        Some(node) => match node.as_array() {
            Some(items) => Some(items.clone()),
            None => None,
        },
        None => None,
    }
}

/// `serde_json::Value::pointer`, then one arm for each variant of the
/// `serde_json::Value` that the pointer leads to. The contract claims only
/// that the outcome is the one named `json_kind_at` for the text of the
/// document.
#[verifier::external_body]
pub(crate) fn kind_at(doc: &serde_json::Value, pointer: &str) -> (kind: JsonKind)
    ensures
        kind == json_kind_at(json_text(*doc), pointer@),
{
    match doc.pointer(pointer) {
        None => JsonKind::Absent,
        Some(serde_json::Value::Null) => JsonKind::Null,
        Some(serde_json::Value::Bool(_)) => JsonKind::Boolean,
        Some(serde_json::Value::Number(_)) => JsonKind::Number,
        Some(serde_json::Value::String(_)) => JsonKind::Text,
        Some(serde_json::Value::Array(_)) => JsonKind::Array,
        Some(serde_json::Value::Object(_)) => JsonKind::Object,
    }
}

/// Reads a string that may stand at `pointer` but need not.
pub fn optional_string_at(doc: &serde_json::Value, pointer: &str) -> (field: Result<
    Option<String>,
    JsonKind,
>)
    ensures
        optional_view(field) == optional_string(json_text(*doc), pointer@),
{
    match string_at(doc, pointer) {
        Some(s) => Ok(Some(s)),
        None => match kind_at(doc, pointer) {
            JsonKind::Absent => Ok(None),
            JsonKind::Null => Ok(None),
            other => Err(other),
        },
    }
}

/// The `Display` rendering of a `serde_json::Value`, which is its compact
/// JSON text. The contract claims only that the text is the one named
/// `json_text`. The rendering cannot fail: a document holds nothing but what
/// JSON can express, and it is written into a string.
#[verifier::external_body]
pub(crate) fn to_text(doc: &serde_json::Value) -> (text: String)
    ensures
        text@ == json_text(*doc),
{
    doc.to_string()
}

} // verus!
