//! Formatting of decoded text for display: JSON is pretty-printed, anything
//! else is shown as it is, trimmed.

use crate::text::{text_of, trim, trimmed};
use vstd::prelude::*;
use vstd::string::*;

verus! {

/// What the formatter reads of a text taken as a JSON document.
#[derive(Debug, PartialEq, Eq)]
pub enum JsonShape {
    /// The text is no JSON document.
    Invalid,
    /// The document is one JSON string, which holds this text.
    Quoted(String),
    /// The document is any other JSON value.
    Structured,
}

/// The mathematical value of a [`JsonShape`].
pub ghost enum Shape {
    Invalid,
    Quoted(Seq<char>),
    Structured,
}

impl View for JsonShape {
    type V = Shape;

    open spec fn view(&self) -> Shape {
        match self {
            JsonShape::Invalid => Shape::Invalid,
            JsonShape::Quoted(inner) => Shape::Quoted(inner@),
            JsonShape::Structured => Shape::Structured,
        }
    }
}

/// The shape of the value that `serde_json` parses `text` to.
pub uninterp spec fn json_shape(text: Seq<char>) -> Shape;

/// The pretty rendering, by `serde_json`, of the value that it parses
/// `text` to, and `None` where it parses or renders none.
pub uninterp spec fn json_pretty(text: Seq<char>) -> Option<Seq<char>>;

/// Parses `text` with `serde_json::from_str` into a `serde_json::Value` and
/// tells a string, with what it holds, from the other values, and from a
/// text that the crate does not parse.
#[verifier::external_body]
fn json_probe(text: &str) -> (shape: JsonShape)
    ensures
        shape@ == json_shape(text@),
{
    match serde_json::from_str::<serde_json::Value>(text) {
        Ok(serde_json::Value::String(inner)) => JsonShape::Quoted(inner),
        Ok(serde_json::Value::Null) => JsonShape::Structured,
        Ok(serde_json::Value::Bool(_)) => JsonShape::Structured,
        Ok(serde_json::Value::Number(_)) => JsonShape::Structured,
        Ok(serde_json::Value::Array(_)) => JsonShape::Structured,
        Ok(serde_json::Value::Object(_)) => JsonShape::Structured,
        Err(_) => JsonShape::Invalid,
    }
}

/// Parses `text` with `serde_json::from_str` into a `serde_json::Value` and
/// renders that value with `serde_json::to_string_pretty`, which indents by
/// two spaces; `None` stands for an error of either call.
#[verifier::external_body]
fn json_render(text: &str) -> (pretty: Option<String>)
    ensures
        text_of(pretty) == json_pretty(text@),
{
    match serde_json::from_str::<serde_json::Value>(text) {
        Ok(value) => serde_json::to_string_pretty(&value).ok(),
        Err(_) => None,
    }
}

/// The text whose pretty rendering is shown for a text of shape `shape`:
/// the text itself where it is a structured document, what it holds where
/// it is one JSON string, and none where it is no JSON.
pub open spec fn document_of(text: Seq<char>, shape: Shape) -> Option<Seq<char>> {
    match shape {
        Shape::Invalid => None,
        Shape::Quoted(inner) => Some(inner),
        Shape::Structured => Some(text),
    }
}

/// What is shown for `text`, where `pretty` is the pretty rendering of its
/// document, if it has one: the rendering, and without one the text,
/// trimmed.
pub open spec fn display_of(text: Seq<char>, pretty: Option<Seq<char>>) -> Seq<char> {
    match pretty {
        Some(rendering) => rendering,
        None => trimmed(text),
    }
}

/// What is shown for `text`.
///
/// A text that is a JSON document is shown pretty-printed. Where the
/// document is a single JSON string, the text it holds is the document
/// instead (JSON encoded twice), one level deep. A text for which this
/// gives no rendering is shown as it is, trimmed.
pub open spec fn formatted(text: Seq<char>) -> Seq<char> {
    match document_of(text, json_shape(text)) {
        Some(document) => display_of(text, json_pretty(document)),
        None => trimmed(text),
    }
}

/// Whether `text` is the pretty rendering of a structured JSON document,
/// its own.
pub open spec fn already_pretty(text: Seq<char>) -> bool {
    json_shape(text) == Shape::Structured && json_pretty(text) == Some(text)
}

/// The text whose pretty rendering is to be tried for a text of shape
/// `shape`.
pub fn document(text: &str, shape: JsonShape) -> (chosen: Option<String>)
    ensures
        text_of(chosen) == document_of(text@, shape@),
{
    match shape {
        JsonShape::Invalid => None,
        JsonShape::Quoted(inner) => Some(inner),
        JsonShape::Structured => Some(text.to_owned()),
    }
}

/// What is shown for `text`, given the pretty rendering of its document,
/// if it has one.
pub fn display(text: &str, pretty: Option<String>) -> (shown: String)
    ensures
        shown@ == display_of(text@, text_of(pretty)),
{
    match pretty {
        Some(rendering) => rendering,
        None => trim(text),
    }
}

/// Formats a decoded text for display. It gives a text for every input.
pub fn format_record(record: String) -> (shown: String)
    ensures
        shown@ == formatted(record@),
{
    let shape = json_probe(record.as_str());
    match document(record.as_str(), shape) {
        Some(chosen) => {
            let pretty = json_render(chosen.as_str());
            display(record.as_str(), pretty)
        },
        None => trim(record.as_str()),
    }
}

/// Formatting leaves a text unchanged that is already the pretty rendering
/// of a structured JSON document, so formatting twice gives what
/// formatting once gives.
pub proof fn law_format_idempotent_on_pretty(text: Seq<char>)
    requires
        already_pretty(text),
    ensures
        formatted(text) == text,
        formatted(formatted(text)) == formatted(text),
{
}

} // verus!
