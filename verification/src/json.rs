//! JSON documents as trees of plain values, read and written by `serde_json`.

use crate::text::text_eq;
use vstd::prelude::*;

verus! {

/// A JSON document.
pub enum Json {
    Null,
    Bool(bool),
    /// A number, in the decimal notation in which `serde_json` prints it.
    Number(String),
    Text(String),
    Array(Vec<Json>),
    /// The fields of an object, each with its name.
    Object(Vec<(String, Json)>),
}

/// Why a text is no JSON document, or why a document could not be written.
#[derive(Debug)]
pub struct JsonError {
    pub message: String,
}

/// `serde_json::Error`, as a value that is carried through.
#[verifier::external_type_specification]
#[verifier::external_body]
pub struct ExSerdeJsonError(serde_json::Error);

/// `serde_json::Value`, as a value that is carried through.
#[verifier::external_type_specification]
#[verifier::external_body]
pub struct ExSerdeJsonValue(serde_json::Value);

/// The value that `serde_json::from_str` reads from a text, where it reads one.
pub uninterp spec fn value_read(text: Seq<char>) -> Option<serde_json::Value>;

/// The text that `serde_json::to_string_pretty` writes for a value, where it writes one.
pub uninterp spec fn value_written(value: serde_json::Value) -> Option<Seq<char>>;

/// The tree that holds what a `serde_json::Value` holds.
pub uninterp spec fn tree_of(value: serde_json::Value) -> Json;

/// The `serde_json::Value` that holds what a tree holds; `None` where the tree holds a
/// number whose text `serde_json` does not read as a number.
pub uninterp spec fn value_of(doc: Json) -> Option<serde_json::Value>;

/// The document that a text denotes, where it denotes one.
pub open spec fn parsed_json(text: Seq<char>) -> Option<Json> {
    match value_read(text) {
        Some(value) => Some(tree_of(value)),
        None => None,
    }
}

/// The text of a document, where it has one.
pub open spec fn rendered_json(doc: Json) -> Option<Seq<char>> {
    match value_of(doc) {
        Some(value) => value_written(value),
        None => None,
    }
}

/// Calls `serde_json::from_str`, for a `serde_json::Value`. The call's result depends on
/// the text alone; the contract names it `value_read`.
#[verifier::external_body]
fn read_value(text: &str) -> (r: Result<serde_json::Value, serde_json::Error>)
    ensures
        match r {
            Ok(value) => value_read(text@) == Some(value),
            Err(_) => value_read(text@) is None,
        },
{
    serde_json::from_str::<serde_json::Value>(text)
}

/// Calls `serde_json::to_string_pretty`. The call's result depends on the value alone;
/// the contract names it `value_written`.
#[verifier::external_body]
fn write_value(value: &serde_json::Value) -> (r: Result<String, serde_json::Error>)
    ensures
        match r {
            Ok(text) => value_written(*value) == Some(text@),
            Err(_) => value_written(*value) is None,
        },
{
    serde_json::to_string_pretty(value)
}

/// Takes a `serde_json::Value` apart, variant by variant: a number becomes the text that
/// its `to_string` gives, an object the list of its fields in the order in which
/// `serde_json::Map` hands them out. The contract only names the result, `tree_of`.
#[verifier::external_body]
fn tree_from_value(value: &serde_json::Value) -> (r: Json)
    ensures
        r == tree_of(*value),
{
    match value {
        serde_json::Value::Null => Json::Null,
        serde_json::Value::Bool(b) => Json::Bool(*b),
        serde_json::Value::Number(n) => Json::Number(n.to_string()),
        serde_json::Value::String(s) => Json::Text(s.clone()),
        serde_json::Value::Array(items) => Json::Array(items.iter().map(tree_from_value).collect()),
        serde_json::Value::Object(fields) => Json::Object(
            fields.iter().map(|(k, v)| (k.clone(), tree_from_value(v))).collect(),
        ),
    }
}

/// Builds a `serde_json::Value` from a tree, variant by variant: a number is read with
/// `serde_json::from_str` as a `serde_json::Number`, and the error of that call is handed
/// on; the fields of an object are collected into a `serde_json::Map`. The contract only
/// names the result, `value_of`.
#[verifier::external_body]
fn value_from_tree(doc: &Json) -> (r: Result<serde_json::Value, serde_json::Error>)
    ensures
        match r {
            Ok(value) => value_of(*doc) == Some(value),
            Err(_) => value_of(*doc) is None,
        },
{
    Ok(match doc {
        Json::Null => serde_json::Value::Null,
        Json::Bool(b) => serde_json::Value::Bool(*b),
        Json::Number(n) => serde_json::Value::Number(serde_json::from_str(n)?),
        Json::Text(s) => serde_json::Value::String(s.clone()),
        Json::Array(items) => serde_json::Value::Array(
            items.iter().map(value_from_tree).collect::<Result<_, _>>()?,
        ),
        Json::Object(fields) => serde_json::Value::Object(
            fields.iter().map(|(k, v)| Ok((k.clone(), value_from_tree(v)?))).collect::<Result<_, serde_json::Error>>()?,
        ),
    })
}

/// Calls `to_string` on a `serde_json::Error`, for its message.
#[verifier::external_body]
fn error_message(error: &serde_json::Error) -> (r: String) {
    error.to_string()
}

/// Reads a text as a JSON document.
pub fn parse(text: &str) -> (r: Result<Json, JsonError>)
    ensures
        match r {
            Ok(doc) => parsed_json(text@) == Some(doc),
            Err(_) => parsed_json(text@) is None,
        },
{
    match read_value(text) {
        Ok(value) => Ok(tree_from_value(&value)),
        Err(e) => Err(JsonError { message: error_message(&e) }),
    }
}

/// Writes a JSON document as text, indented for readers. A document that holds a number
/// whose text is no number is refused.
pub fn render(doc: &Json) -> (r: Result<String, JsonError>)
    ensures
        match r {
            Ok(text) => rendered_json(*doc) == Some(text@),
            Err(_) => rendered_json(*doc) is None,
        },
{
    match value_from_tree(doc) {
        Ok(value) => match write_value(&value) {
            Ok(text) => Ok(text),
            Err(e) => Err(JsonError { message: error_message(&e) }),
        },
        Err(e) => Err(JsonError { message: error_message(&e) }),
    }
}

impl Json {
    /// The text that a text node holds.
    pub open spec fn text(self) -> Option<Seq<char>> {
        match self {
            Json::Text(s) => Some(s@),
            _ => None,
        }
    }

    /// The truth value that a boolean node holds.
    pub open spec fn flag(self) -> Option<bool> {
        match self {
            Json::Bool(b) => Some(b),
            _ => None,
        }
    }

    /// The text that a node holds which may also be null.
    pub open spec fn optional_text(self) -> Option<Option<Seq<char>>> {
        match self {
            Json::Null => Some(None),
            Json::Text(s) => Some(Some(s@)),
            _ => None,
        }
    }
}

/// Some field is called `name`.
pub open spec fn has_field(fields: Seq<(String, Json)>, name: Seq<char>) -> bool {
    exists|i: int| 0 <= i < fields.len() && (#[trigger] fields[i]).0@ == name
}

/// `i` is the position of the first field called `name`.
pub open spec fn is_first_field(fields: Seq<(String, Json)>, name: Seq<char>, i: int) -> bool {
    &&& 0 <= i < fields.len()
    &&& fields[i].0@ == name
    &&& forall|j: int| 0 <= j < i ==> (#[trigger] fields[j]).0@ != name
}

/// The position of the first field called `name`.
pub open spec fn field_index(fields: Seq<(String, Json)>, name: Seq<char>) -> Option<int> {
    if has_field(fields, name) {
        Some(choose|i: int| is_first_field(fields, name, i))
    } else {
        None
    }
}

/// The value of the first field called `name`.
pub open spec fn field(fields: Seq<(String, Json)>, name: Seq<char>) -> Option<Json> {
    match field_index(fields, name) {
        Some(i) => Some(fields[i].1),
        None => None,
    }
}

/// A first position of a name is the value of `field_index`.
pub proof fn lemma_field_index(fields: Seq<(String, Json)>, name: Seq<char>, i: int)
    requires
        is_first_field(fields, name, i),
    ensures
        field_index(fields, name) == Some(i),
        field(fields, name) == Some(fields[i].1),
{
    let c = choose|c: int| is_first_field(fields, name, c);
    assert(is_first_field(fields, name, c));
    if c < i {
        assert(fields[c].0@ != name);
    } else if i < c {
        assert(fields[i].0@ != name);
    }
}

/// The value of the first field called `name`.
pub fn get_field<'a>(fields: &'a Vec<(String, Json)>, name: &str) -> (r: Option<&'a Json>)
    ensures
        match r {
            Some(value) => field(fields@, name@) == Some(*value),
            None => field(fields@, name@) is None,
        },
{
    let mut i: usize = 0;
    while i < fields.len()
        invariant
            i <= fields.len(),
            forall|j: int| 0 <= j < i ==> (#[trigger] fields@[j]).0@ != name@,
        decreases fields.len() - i,
    {
        if text_eq(fields[i].0.as_str(), name) {
            proof {
                lemma_field_index(fields@, name@, i as int);
            }
            return Some(&fields[i].1);
        }
        i = i + 1;
    }
    assert(!has_field(fields@, name@));
    None
}

} // verus!
