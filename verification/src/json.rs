//! JSON documents as plain data.
//!
//! [`Json`] is the value that requests, responses, tool arguments and schemas
//! are made of. Its mathematical model is [`JsonView`]: a tree whose objects
//! are maps from keys to values, so two documents that differ only in the
//! order of an object's entries have the same view.

use crate::bridge::{number_as_i64, number_from_i64, number_integer};
use vstd::prelude::*;

verus! {

/// A JSON document.
///
/// An object is a list of entries. Where a key occurs more than once the last
/// entry with that key is the one that counts, as when the entries are
/// inserted into a map one after the other.
#[derive(Debug)]
pub enum Json {
    Null,
    Bool(bool),
    Number(serde_json::Number),
    Str(String),
    Array(Vec<Json>),
    Object(Vec<(String, Json)>),
}

/// The mathematical model of a JSON document.
///
/// A number that is an integer in the range of `i64` is modelled by that
/// integer. Any other number is carried as it is.
pub enum JsonView {
    Null,
    Bool(bool),
    Integer(i64),
    Number(serde_json::Number),
    Str(Seq<char>),
    Array(Seq<JsonView>),
    Object(Map<Seq<char>, JsonView>),
}

/// The map that a list of entries stands for: each entry is inserted in turn,
/// so a later entry replaces an earlier one with the same key.
pub open spec fn entries_map(entries: Seq<(Seq<char>, JsonView)>) -> Map<Seq<char>, JsonView>
    decreases entries.len(),
{
    if entries.len() == 0 {
        Map::empty()
    } else {
        entries_map(entries.drop_last()).insert(entries.last().0, entries.last().1)
    }
}

/// The object with the given entries.
pub open spec fn object(entries: Seq<(Seq<char>, JsonView)>) -> JsonView {
    JsonView::Object(entries_map(entries))
}

impl JsonView {
    /// The value under `key`, where `self` is an object that has that key.
    pub open spec fn field(self, key: Seq<char>) -> Option<JsonView> {
        match self {
            JsonView::Object(fields) => if fields.contains_key(key) {
                Some(fields[key])
            } else {
                None
            },
            _ => None,
        }
    }

    /// The characters of `self`, where it is a string.
    pub open spec fn text(self) -> Option<Seq<char>> {
        match self {
            JsonView::Str(s) => Some(s),
            _ => None,
        }
    }

    /// The integer that `self` is, where it is one.
    pub open spec fn integer(self) -> Option<i64> {
        match self {
            JsonView::Integer(i) => Some(i),
            _ => None,
        }
    }

    /// The characters of the string under `key`, where there is one.
    pub open spec fn text_field(self, key: Seq<char>) -> Option<Seq<char>> {
        match self.field(key) {
            Some(value) => value.text(),
            None => None,
        }
    }
}

/// The model of a number.
pub open spec fn number_view(number: serde_json::Number) -> JsonView {
    match number_integer(number) {
        Some(integer) => JsonView::Integer(integer),
        None => JsonView::Number(number),
    }
}

/// The views of a list of documents, in order.
pub open spec fn items_view(items: Seq<Json>) -> Seq<JsonView>
    decreases items, 0int,
{
    if items.len() == 0 {
        Seq::empty()
    } else {
        items_view(items.drop_last()).push(json_view(items.last()))
    }
}

/// The views of a list of entries, in order.
pub open spec fn entries_view(entries: Seq<(String, Json)>) -> Seq<(Seq<char>, JsonView)>
    decreases entries, 0int,
{
    if entries.len() == 0 {
        Seq::empty()
    } else {
        entries_view(entries.drop_last()).push((entries.last().0@, json_view(entries.last().1)))
    }
}

/// The model of a document.
pub open spec fn json_view(json: Json) -> JsonView
    decreases json, 1int,
{
    match json {
        Json::Null => JsonView::Null,
        Json::Bool(b) => JsonView::Bool(b),
        Json::Number(n) => number_view(n),
        Json::Str(s) => JsonView::Str(s@),
        Json::Array(items) => JsonView::Array(items_view(items@)),
        Json::Object(entries) => object(entries_view(entries@)),
    }
}

impl View for Json {
    type V = JsonView;

    open spec fn view(&self) -> JsonView {
        json_view(*self)
    }
}

impl DeepView for Json {
    type V = JsonView;

    open spec fn deep_view(&self) -> JsonView {
        json_view(*self)
    }
}

/// `items_view` keeps the length and views each item in place.
pub proof fn lemma_items_view(items: Seq<Json>)
    ensures
        items_view(items).len() == items.len(),
        forall|i: int| 0 <= i < items.len() ==> (#[trigger] items_view(items)[i]) == items[i]@,
    decreases items.len(),
{
    if items.len() > 0 {
        lemma_items_view(items.drop_last());
    }
}

/// `entries_view` keeps the length and views each entry in place.
pub proof fn lemma_entries_view(entries: Seq<(String, Json)>)
    ensures
        entries_view(entries).len() == entries.len(),
        forall|i: int|
            0 <= i < entries.len() ==> (#[trigger] entries_view(entries)[i]) == (
                entries[i].0@,
                entries[i].1@,
            ),
    decreases entries.len(),
{
    if entries.len() > 0 {
        lemma_entries_view(entries.drop_last());
    }
}

/// The map of a list of entries is finite.
pub proof fn lemma_entries_map_finite(entries: Seq<(Seq<char>, JsonView)>)
    ensures
        entries_map(entries).dom().finite(),
    decreases entries.len(),
{
    if entries.len() > 0 {
        lemma_entries_map_finite(entries.drop_last());
    }
}

/// A key that no entry has is not in the map.
pub proof fn lemma_entries_map_absent(entries: Seq<(Seq<char>, JsonView)>, key: Seq<char>)
    requires
        forall|i: int| 0 <= i < entries.len() ==> (#[trigger] entries[i]).0 != key,
    ensures
        !entries_map(entries).contains_key(key),
    decreases entries.len(),
{
    if entries.len() > 0 {
        let front = entries.drop_last();
        assert forall|i: int| 0 <= i < front.len() implies (#[trigger] front[i]).0 != key by {
            assert(front[i] == entries[i]);
        }
        lemma_entries_map_absent(front, key);
        assert(entries.last() == entries[entries.len() - 1]);
    }
}

/// The map holds, under a key, the value of the last entry with that key.
pub proof fn lemma_entries_map_last(entries: Seq<(Seq<char>, JsonView)>, at: int)
    requires
        0 <= at < entries.len(),
        forall|i: int| at < i < entries.len() ==> (#[trigger] entries[i]).0 != entries[at].0,
    ensures
        entries_map(entries).contains_key(entries[at].0),
        entries_map(entries)[entries[at].0] == entries[at].1,
    decreases entries.len(),
{
    if at < entries.len() - 1 {
        let front = entries.drop_last();
        assert(front[at] == entries[at]);
        assert forall|i: int| at < i < front.len() implies (#[trigger] front[i]).0
            != front[at].0 by {
            assert(front[i] == entries[i]);
        }
        lemma_entries_map_last(front, at);
        assert(entries.last() == entries[entries.len() - 1]);
    }
}

/// Appending an entry inserts it into the map.
pub proof fn lemma_entries_map_push(
    entries: Seq<(Seq<char>, JsonView)>,
    key: Seq<char>,
    value: JsonView,
)
    ensures
        entries_map(entries.push((key, value))) == entries_map(entries).insert(key, value),
{
    assert(entries.push((key, value)).drop_last() =~= entries);
}

impl Json {
    /// The string `text` as a document.
    pub fn string(text: &str) -> (json: Json)
        ensures
            json@ == JsonView::Str(text@),
    {
        Json::Str(text.to_owned())
    }

    /// The integer `integer` as a document.
    pub fn integer(integer: i64) -> (json: Json)
        ensures
            json@ == JsonView::Integer(integer),
    {
        Json::Number(number_from_i64(integer))
    }

    /// The object without entries.
    pub fn empty_object() -> (json: Json)
        ensures
            json@ == JsonView::Object(Map::empty()),
    {
        let entries: Vec<(String, Json)> = Vec::new();
        proof {
            assert(entries_view(entries@) =~= Seq::empty());
        }
        Json::Object(entries)
    }

    /// The array of `items`.
    pub fn array(items: Vec<Json>) -> (json: Json)
        ensures
            json@ == JsonView::Array(Seq::new(items@.len(), |i: int| items@[i]@)),
    {
        proof {
            lemma_items_view(items@);
            assert(items_view(items@) =~= Seq::new(items@.len(), |i: int| items@[i]@));
        }
        Json::Array(items)
    }

    /// The array without items.
    pub fn empty_array() -> (json: Json)
        ensures
            json@ == JsonView::Array(Seq::empty()),
    {
        let items: Vec<Json> = Vec::new();
        Json::Array(items)
    }

    /// The value under `key` where `self` is an object that has that key, and
    /// `None` for a missing key and for anything that is not an object.
    pub fn get(&self, key: &str) -> (found: Option<&Json>)
        ensures
            match found {
                Some(value) => self@.field(key@) == Some(value@),
                None => self@.field(key@) is None,
            },
    {
        match self {
            Json::Object(entries) => {
                let wanted = key.to_owned();
                let mut i: usize = entries.len();
                proof {
                    lemma_entries_view(entries@);
                }
                while i > 0
                    invariant
                        i <= entries.len(),
                        wanted@ == key@,
                        self@ == object(entries_view(entries@)),
                        entries_view(entries@).len() == entries.len(),
                        forall|j: int|
                            0 <= j < entries.len() ==> (#[trigger] entries_view(entries@)[j]) == (
                                entries@[j].0@,
                                entries@[j].1@,
                            ),
                        forall|j: int|
                            i <= j < entries.len() ==> (#[trigger] entries_view(entries@)[j]).0
                                != key@,
                    decreases i,
                {
                    i = i - 1;
                    if entries[i].0 == wanted {
                        proof {
                            lemma_entries_map_last(entries_view(entries@), i as int);
                        }
                        return Some(&entries[i].1);
                    }
                }
                proof {
                    lemma_entries_map_absent(entries_view(entries@), key@);
                }
                None
            },
            _ => None,
        }
    }

    /// The text of the string under `key`, and `None` where `self` has no
    /// string under that key.
    pub fn get_str(&self, key: &str) -> (text: Option<&str>)
        ensures
            match text {
                Some(s) => self@.text_field(key@) == Some(s@),
                None => self@.text_field(key@) is None,
            },
    {
        match self.get(key) {
            Some(value) => value.as_str(),
            None => None,
        }
    }

    /// The integer that `self` is where it is a number that is an integer in
    /// the range of `i64`, and `None` otherwise.
    pub fn as_i64(&self) -> (integer: Option<i64>)
        ensures
            integer == self@.integer(),
    {
        match self {
            Json::Number(n) => number_as_i64(n),
            _ => None,
        }
    }

    /// The text of `self` where it is a string, and `None` otherwise.
    pub fn as_str(&self) -> (text: Option<&str>)
        ensures
            match text {
                Some(s) => self@.text() == Some(s@),
                None => self@.text() is None,
            },
    {
        match self {
            Json::Str(s) => Some(s.as_str()),
            _ => None,
        }
    }
}

impl Clone for Json {
    /// A copy with the same view.
    fn clone(&self) -> (copy: Json)
        ensures
            copy@ == self@,
    {
        self.duplicate()
    }
}

impl Json {
    /// A copy with the same view.
    pub fn duplicate(&self) -> (copy: Json)
        ensures
            copy@ == self@,
        decreases self,
    {
        match self {
            Json::Null => Json::Null,
            Json::Bool(b) => Json::Bool(*b),
            Json::Number(n) => Json::Number(n.clone()),
            Json::Str(s) => Json::Str(s.clone()),
            Json::Array(items) => {
                let mut copies: Vec<Json> = Vec::new();
                let mut i: usize = 0;
                while i < items.len()
                    invariant
                        i <= items.len(),
                        copies.len() == i,
                        *self == Json::Array(*items),
                        forall|j: int| 0 <= j < i ==> (#[trigger] copies@[j])@ == items@[j]@,
                    decreases items.len() - i,
                {
                    assert(decreases_to!(*self => self->Array_0));
                    assert(decreases_to!(*items => items[i as int]));
                    copies.push(items[i].duplicate());
                    i = i + 1;
                }
                proof {
                    lemma_items_view(items@);
                    lemma_items_view(copies@);
                    assert(items_view(copies@) =~= items_view(items@));
                }
                Json::Array(copies)
            },
            Json::Object(entries) => {
                let mut copies: Vec<(String, Json)> = Vec::new();
                let mut i: usize = 0;
                while i < entries.len()
                    invariant
                        i <= entries.len(),
                        copies.len() == i,
                        *self == Json::Object(*entries),
                        forall|j: int|
                            0 <= j < i ==> (#[trigger] copies@[j]).0@ == entries@[j].0@
                                && copies@[j].1@ == entries@[j].1@,
                    decreases entries.len() - i,
                {
                    assert(decreases_to!(*self => self->Object_0));
                    assert(decreases_to!(*entries => entries[i as int]));
                    assert(decreases_to!(entries[i as int] => entries[i as int].1));
                    copies.push((entries[i].0.clone(), entries[i].1.duplicate()));
                    i = i + 1;
                }
                proof {
                    lemma_entries_view(entries@);
                    lemma_entries_view(copies@);
                    assert(entries_view(copies@) =~= entries_view(entries@));
                }
                Json::Object(copies)
            },
        }
    }
}

/// The entries of an object under construction.
pub struct Fields {
    entries: Vec<(String, Json)>,
}

impl View for Fields {
    type V = Map<Seq<char>, JsonView>;

    closed spec fn view(&self) -> Map<Seq<char>, JsonView> {
        entries_map(entries_view(self.entries@))
    }
}

impl Fields {
    /// No entries.
    pub fn new() -> (fields: Fields)
        ensures
            fields@ == Map::<Seq<char>, JsonView>::empty(),
    {
        let entries: Vec<(String, Json)> = Vec::new();
        proof {
            assert(entries_view(entries@) =~= Seq::empty());
        }
        Fields { entries }
    }

    /// Puts `value` under `key`, in place of what was there.
    pub fn put(&mut self, key: &str, value: Json)
        ensures
            final(self)@ == old(self)@.insert(key@, value@),
    {
        let ghost before = self.entries@;
        let name = key.to_owned();
        self.entries.push((name, value));
        proof {
            assert(self.entries@.drop_last() =~= before);
            lemma_entries_map_push(entries_view(before), key@, value@);
        }
    }

    /// The object with these entries.
    pub fn into_json(self) -> (json: Json)
        ensures
            json@ == JsonView::Object(self@),
    {
        Json::Object(self.entries)
    }
}

} // verus!
