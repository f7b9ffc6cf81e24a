//! JSON text: reading a document from bytes, writing one as compact text,
//! and its `Debug` text. `serde_json` does the work; this file turns its
//! values into [`Json`] and back, level by level.

use crate::bridge::{
    distinct_keys, json_debug, json_text, node_into_value, pairs_json, parsed_json, value_debug,
    value_from_slice, value_into_node, value_json, value_to_string, values_json, Node,
};
use crate::json::{
    entries_map, entries_view, items_view, lemma_entries_map_finite, lemma_entries_map_last,
    lemma_entries_view, lemma_items_view, Json, JsonView,
};
use vstd::prelude::*;
use vstd::string::StringSliceAdditionalSpecFns;

verus! {

/// The `serde_json::Value` that holds the document `json`.
pub fn to_value(json: &Json) -> (value: serde_json::Value)
    ensures
        value_json(value) == json@,
    decreases json,
{
    match json {
        Json::Null => node_into_value(Node::Null),
        Json::Bool(b) => node_into_value(Node::Bool(*b)),
        Json::Number(n) => node_into_value(Node::Number(n.clone())),
        Json::Str(s) => node_into_value(Node::Str(s.clone())),
        Json::Array(items) => {
            let mut values: Vec<serde_json::Value> = Vec::new();
            let mut i: usize = 0;
            while i < items.len()
                invariant
                    i <= items.len(),
                    values.len() == i,
                    *json == Json::Array(*items),
                    forall|j: int| 0 <= j < i ==> value_json(#[trigger] values@[j]) == items@[j]@,
                decreases items.len() - i,
            {
                assert(decreases_to!(*json => json->Array_0));
                assert(decreases_to!(*items => items[i as int]));
                values.push(to_value(&items[i]));
                i = i + 1;
            }
            proof {
                lemma_items_view(items@);
                assert(values_json(values@) =~= items_view(items@));
            }
            node_into_value(Node::Array(values))
        },
        Json::Object(entries) => {
            let mut pairs: Vec<(String, serde_json::Value)> = Vec::new();
            let mut i: usize = 0;
            while i < entries.len()
                invariant
                    i <= entries.len(),
                    pairs.len() == i,
                    *json == Json::Object(*entries),
                    forall|j: int|
                        0 <= j < i ==> (#[trigger] pairs@[j]).0@ == entries@[j].0@ && value_json(
                            pairs@[j].1,
                        ) == entries@[j].1@,
                decreases entries.len() - i,
            {
                assert(decreases_to!(*json => json->Object_0));
                assert(decreases_to!(*entries => entries[i as int]));
                assert(decreases_to!(entries[i as int] => entries[i as int].1));
                pairs.push((entries[i].0.clone(), to_value(&entries[i].1)));
                i = i + 1;
            }
            proof {
                lemma_entries_view(entries@);
                assert(pairs_json(pairs@) =~= entries_view(entries@));
            }
            node_into_value(Node::Object(pairs))
        },
    }
}

/// The document that `value` holds.
pub fn from_value(value: serde_json::Value) -> (json: Json)
    ensures
        json@ == value_json(value),
    decreases value_json(value),
{
    let ghost whole = value_json(value);
    match value_into_node(value) {
        Node::Null => Json::Null,
        Node::Bool(b) => Json::Bool(b),
        Node::Number(n) => Json::Number(n),
        Node::Str(s) => Json::Str(s),
        Node::Array(values) => {
            let ghost before = values@;
            let mut values = values;
            let mut items: Vec<Json> = Vec::new();
            while values.len() > 0
                invariant
                    values.len() <= before.len(),
                    items.len() + values.len() == before.len(),
                    whole == value_json(value),
                    whole == JsonView::Array(values_json(before)),
                    forall|j: int| 0 <= j < values.len() ==> values@[j] == before[j],
                    forall|j: int|
                        0 <= j < items.len() ==> (#[trigger] items@[j])@ == value_json(
                            before[before.len() - 1 - j],
                        ),
                decreases values.len(),
            {
                let ghost at = values.len() - 1;
                let last = values.pop().unwrap();
                proof {
                    assert(last == before[at]);
                    assert(values_json(before)[at] == value_json(last));
                    assert(decreases_to!(whole => whole->Array_0));
                    assert(decreases_to!(values_json(before) => values_json(before)[at]));
                }
                items.push(from_value(last));
            }
            let mut ordered: Vec<Json> = Vec::new();
            while items.len() > 0
                invariant
                    items.len() <= before.len(),
                    ordered.len() + items.len() == before.len(),
                    forall|j: int|
                        0 <= j < items.len() ==> (#[trigger] items@[j])@ == value_json(
                            before[before.len() - 1 - j],
                        ),
                    forall|j: int|
                        0 <= j < ordered.len() ==> (#[trigger] ordered@[j])@ == value_json(
                            before[j],
                        ),
                decreases items.len(),
            {
                let item = items.pop().unwrap();
                ordered.push(item);
            }
            proof {
                lemma_items_view(ordered@);
                assert(items_view(ordered@) =~= values_json(before));
            }
            Json::Array(ordered)
        },
        Node::Object(pairs) => {
            let ghost before = pairs@;
            let mut pairs = pairs;
            let mut entries: Vec<(String, Json)> = Vec::new();
            proof {
                lemma_entries_map_finite(pairs_json(before));
            }
            while pairs.len() > 0
                invariant
                    pairs.len() <= before.len(),
                    entries.len() + pairs.len() == before.len(),
                    whole == value_json(value),
                    whole == JsonView::Object(entries_map(pairs_json(before))),
                    entries_map(pairs_json(before)).dom().finite(),
                    distinct_keys(before),
                    forall|j: int| 0 <= j < pairs.len() ==> pairs@[j] == before[j],
                    forall|j: int|
                        0 <= j < entries.len() ==> (#[trigger] entries@[j]).0@ == before[before.len()
                            - 1 - j].0@ && entries@[j].1@ == value_json(
                            before[before.len() - 1 - j].1,
                        ),
                decreases pairs.len(),
            {
                let ghost at = pairs.len() - 1;
                let (key, last) = pairs.pop().unwrap();
                proof {
                    assert((key, last) == before[at]);
                    let listed = pairs_json(before);
                    assert(listed[at] == (key@, value_json(last)));
                    assert forall|j: int| at < j < listed.len() implies (#[trigger] listed[j]).0
                        != listed[at].0 by {
                        assert(before[at].0@ != before[j].0@);
                    }
                    lemma_entries_map_last(listed, at);
                    assert(decreases_to!(whole => whole->Object_0));
                    assert(decreases_to!(entries_map(listed) => entries_map(listed)[key@]));
                }
                entries.push((key, from_value(last)));
            }
            let mut ordered: Vec<(String, Json)> = Vec::new();
            while entries.len() > 0
                invariant
                    entries.len() <= before.len(),
                    ordered.len() + entries.len() == before.len(),
                    forall|j: int|
                        0 <= j < entries.len() ==> (#[trigger] entries@[j]).0@ == before[before.len()
                            - 1 - j].0@ && entries@[j].1@ == value_json(
                            before[before.len() - 1 - j].1,
                        ),
                    forall|j: int|
                        0 <= j < ordered.len() ==> (#[trigger] ordered@[j]).0@ == before[j].0@
                            && ordered@[j].1@ == value_json(before[j].1),
                decreases entries.len(),
            {
                let entry = entries.pop().unwrap();
                ordered.push(entry);
            }
            proof {
                lemma_entries_view(ordered@);
                assert(entries_view(ordered@) =~= pairs_json(before));
            }
            Json::Object(ordered)
        },
    }
}

impl Json {
    /// Reads a document from the UTF-8 bytes of a JSON text. `None` where the
    /// bytes are not one JSON document.
    pub fn parse_bytes(bytes: &[u8]) -> (read: Option<Json>)
        ensures
            match read {
                Some(json) => parsed_json(bytes@) == Some(json@),
                None => parsed_json(bytes@) is None,
            },
    {
        match value_from_slice(bytes) {
            Ok(value) => Some(from_value(value)),
            Err(_) => None,
        }
    }

    /// Reads a document from a JSON text. `None` where the text is not one
    /// JSON document.
    pub fn parse(text: &str) -> (read: Option<Json>)
        ensures
            match read {
                Some(json) => parsed_json(text.spec_bytes()) == Some(json@),
                None => parsed_json(text.spec_bytes()) is None,
            },
    {
        Json::parse_bytes(text.as_bytes())
    }

    /// The compact JSON text of `self`. `None` where `serde_json` cannot
    /// write the document.
    pub fn to_text(&self) -> (written: Option<String>)
        ensures
            match written {
                Some(text) => json_text(self@) == Some(text@),
                None => json_text(self@) is None,
            },
    {
        let value = to_value(self);
        match value_to_string(&value) {
            Ok(text) => Some(text),
            Err(_) => None,
        }
    }

    /// The text that `{:?}` prints for the `serde_json::Value` of `self`.
    pub fn debug_text(&self) -> (text: String)
        ensures
            text@ == json_debug(self@),
    {
        let value = to_value(self);
        value_debug(&value)
    }
}

} // verus!
