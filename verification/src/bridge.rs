//! What this library takes on trust from `serde_json`.
//!
//! Everything in this file is believed, not proved: the declarations of the
//! `serde_json` types that the library carries, the names of what its
//! functions return, and the small functions that make the calls. The
//! verified code that uses them is in [`crate::text`].

use crate::json::{number_view, object, JsonView};
use vstd::prelude::*;

verus! {

/// `serde_json::Number`, carried through unread.
#[verifier::external_type_specification]
#[verifier::external_body]
pub struct ExNumber(serde_json::Number);

/// `serde_json::Value`, the document tree that `serde_json` reads and writes.
#[verifier::external_type_specification]
#[verifier::external_body]
pub struct ExValue(serde_json::Value);

/// `serde_json::Error`, which says why a text is not a JSON document.
#[verifier::external_type_specification]
#[verifier::external_body]
pub struct ExError(serde_json::Error);

/// What `serde_json::Number::as_i64` returns for a number: the number as an
/// `i64` where it is an integer in that range, `None` otherwise.
pub uninterp spec fn number_integer(number: serde_json::Number) -> Option<i64>;

/// The document that a `serde_json::Value` holds: what its variant says, and
/// below an array or an object the documents that the values there hold.
pub uninterp spec fn value_json(value: serde_json::Value) -> JsonView;

/// The document that `serde_json::from_slice` reads from the bytes of a JSON
/// text, and `None` where it reports an error.
pub uninterp spec fn parsed_json(bytes: Seq<u8>) -> Option<JsonView>;

/// The compact JSON text that `serde_json::to_string` writes for a document,
/// and `None` where it reports an error.
pub uninterp spec fn json_text(json: JsonView) -> Option<Seq<char>>;

/// The text that the `Debug` implementation of `serde_json::Value` writes for
/// a document when it is formatted with `{:?}`.
pub uninterp spec fn json_debug(json: JsonView) -> Seq<char>;

/// One level of a `serde_json::Value`: its variant, with the values below it
/// left as they are.
pub enum Node {
    Null,
    Bool(bool),
    Number(serde_json::Number),
    Str(String),
    Array(Vec<serde_json::Value>),
    Object(Vec<(String, serde_json::Value)>),
}

/// The documents that a list of values holds, in order.
pub open spec fn values_json(values: Seq<serde_json::Value>) -> Seq<JsonView> {
    Seq::new(values.len(), |i: int| value_json(values[i]))
}

/// The entries that a list of keys and values stands for, in order.
pub open spec fn pairs_json(pairs: Seq<(String, serde_json::Value)>) -> Seq<(Seq<char>, JsonView)> {
    Seq::new(pairs.len(), |i: int| (pairs[i].0@, value_json(pairs[i].1)))
}

/// The document that a node stands for.
pub open spec fn node_json(node: Node) -> JsonView {
    match node {
        Node::Null => JsonView::Null,
        Node::Bool(b) => JsonView::Bool(b),
        Node::Number(n) => number_view(n),
        Node::Str(s) => JsonView::Str(s@),
        Node::Array(items) => JsonView::Array(values_json(items@)),
        Node::Object(pairs) => object(pairs_json(pairs@)),
    }
}

/// No key occurs twice in `pairs`.
pub open spec fn distinct_keys(pairs: Seq<(String, serde_json::Value)>) -> bool {
    forall|i: int, j: int|
        0 <= i < j < pairs.len() ==> (#[trigger] pairs[i]).0@ != (#[trigger] pairs[j]).0@
}

/// `Clone::clone` of `serde_json::Number`, which is derived: the copy equals
/// the number.
pub assume_specification[ <serde_json::Number as Clone>::clone ](
    number: &serde_json::Number,
) -> (copy: serde_json::Number)
    ensures
        copy == *number,
;

/// `serde_json::Number::from` on an `i64`: the number is that integer, so
/// `Number::as_i64` gives it back.
#[verifier::external_body]
pub(crate) fn number_from_i64(integer: i64) -> (number: serde_json::Number)
    ensures
        number_integer(number) == Some(integer),
{
    serde_json::Number::from(integer)
}

/// `serde_json::Number::as_i64`: the number as an `i64` where it is an
/// integer in that range, `None` otherwise.
#[verifier::external_body]
pub(crate) fn number_as_i64(number: &serde_json::Number) -> (integer: Option<i64>)
    ensures
        integer == number_integer(*number),
{
    number.as_i64()
}

/// Takes a `serde_json::Value` apart: one arm for each variant of the enum,
/// which moves out what the variant holds. The entries of an object come
/// from `serde_json::Map::into_iter`; they are the entries of a map, so no
/// key occurs twice among them.
#[verifier::external_body]
pub(crate) fn value_into_node(value: serde_json::Value) -> (node: Node)
    ensures
        node_json(node) == value_json(value),
        node matches Node::Object(pairs) ==> distinct_keys(pairs@),
{
    match value {
        serde_json::Value::Null => Node::Null,
        serde_json::Value::Bool(b) => Node::Bool(b),
        serde_json::Value::Number(n) => Node::Number(n),
        serde_json::Value::String(s) => Node::Str(s),
        serde_json::Value::Array(items) => Node::Array(items),
        serde_json::Value::Object(map) => Node::Object(map.into_iter().collect()),
    }
}

/// Builds a `serde_json::Value`: the variant of the enum that the node
/// names, around what the node holds. The entries of an object go into a
/// `serde_json::Map::new` one after the other with `serde_json::Map::insert`,
/// which replaces the value of a key that the map already has.
#[verifier::external_body]
pub(crate) fn node_into_value(node: Node) -> (value: serde_json::Value)
    ensures
        value_json(value) == node_json(node),
{
    match node {
        Node::Null => serde_json::Value::Null,
        Node::Bool(b) => serde_json::Value::Bool(b),
        Node::Number(n) => serde_json::Value::Number(n),
        Node::Str(s) => serde_json::Value::String(s),
        Node::Array(items) => serde_json::Value::Array(items),
        Node::Object(pairs) => {
            let mut map = serde_json::Map::new();
            for (key, value) in pairs {
                map.insert(key, value);
            }
            serde_json::Value::Object(map)
        },
    }
}

/// `serde_json::from_slice` with `Value` as its target: the value that holds
/// the document that the bytes spell, or the error that says why they spell
/// none.
#[verifier::external_body]
pub(crate) fn value_from_slice(bytes: &[u8]) -> (read: Result<serde_json::Value, serde_json::Error>)
    ensures
        match read {
            Ok(value) => parsed_json(bytes@) == Some(value_json(value)),
            Err(_) => parsed_json(bytes@) is None,
        },
{
    serde_json::from_slice::<serde_json::Value>(bytes)
}

/// `serde_json::to_string` on a `Value`: the compact JSON text of the
/// document that the value holds, or the error that says why it was not
/// written.
#[verifier::external_body]
pub(crate) fn value_to_string(value: &serde_json::Value) -> (written: Result<
    String,
    serde_json::Error,
>)
    ensures
        match written {
            Ok(text) => json_text(value_json(*value)) == Some(text@),
            Err(_) => json_text(value_json(*value)) is None,
        },
{
    serde_json::to_string(value)
}

/// `Debug::fmt` of `serde_json::Value`, through `format!` with `{:?}`: the
/// debug text of the document that the value holds.
#[verifier::external_body]
pub(crate) fn value_debug(value: &serde_json::Value) -> (text: String)
    ensures
        text@ == json_debug(value_json(*value)),
{
    format!("{:?}", value)
}

} // verus!
