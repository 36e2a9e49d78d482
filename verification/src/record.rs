//! Reading records out of JSON, and writing them.
//!
//! A record is usually an object. An array that lists the fields by position is accepted too, as
//! long as it holds no more than there are fields. Fields that a record does not know are ignored.

use vstd::prelude::*;

use crate::json::{
    fields_view, items_view, lemma_fields_push, lemma_items_index, member, option_view, Json,
    JsonView,
};

verus! {

/// The views of a sequence's items.
pub open spec fn views<T: View>(items: Seq<T>) -> Seq<T::V> {
    items.map_values(|item: T| item@)
}

// ---------------------------------------------------------------------------
// Records and their fields
// ---------------------------------------------------------------------------

/// The value has the form of a record of so many fields.
pub open spec fn is_record(json: JsonView, width: nat) -> bool {
    match json {
        JsonView::Object(_) => true,
        JsonView::Array(items) => items.len() <= width,
        _ => false,
    }
}

/// The field of a record that has this name, or this position.
pub open spec fn field(json: JsonView, index: int, name: Seq<char>) -> Option<JsonView> {
    match json {
        JsonView::Array(items) => if 0 <= index < items.len() {
            Some(items[index])
        } else {
            None
        },
        _ => member(json, name),
    }
}

/// A field that must hold text.
pub open spec fn text_of(field: Option<JsonView>) -> Option<Seq<char>> {
    match field {
        Some(JsonView::Str(s)) => Some(s),
        _ => None,
    }
}

/// A field that holds text, or is left out for no text at all.
pub open spec fn text_or_empty_of(field: Option<JsonView>) -> Option<Seq<char>> {
    match field {
        None => Some(Seq::empty()),
        _ => text_of(field),
    }
}

/// A field that holds text, or is null or left out.
pub open spec fn optional_text_of(field: Option<JsonView>) -> Option<Option<Seq<char>>> {
    match field {
        None => Some(None),
        Some(JsonView::Null) => Some(None),
        Some(JsonView::Str(s)) => Some(Some(s)),
        _ => None,
    }
}

/// A field that holds a truth value, or is left out for false.
pub open spec fn flag_of(field: Option<JsonView>) -> Option<bool> {
    match field {
        None => Some(false),
        Some(JsonView::Bool(b)) => Some(b),
        _ => None,
    }
}

/// A field that holds any value, or is left out for null.
pub open spec fn value_of(field: Option<JsonView>) -> JsonView {
    match field {
        None => JsonView::Null,
        Some(value) => value,
    }
}

/// Every item of the list, decoded; nothing if one of them cannot be.
pub open spec fn all_of<V>(items: Seq<JsonView>, decode: spec_fn(JsonView) -> Option<V>) -> Option<
    Seq<V>,
> {
    if forall|i: int| 0 <= i < items.len() ==> decode(#[trigger] items[i]) is Some {
        Some(items.map_values(|item: JsonView| decode(item)->0))
    } else {
        None
    }
}

/// A field that holds a list, or is left out for an empty one.
pub open spec fn list_of<V>(
    field: Option<JsonView>,
    decode: spec_fn(JsonView) -> Option<V>,
) -> Option<Seq<V>> {
    match field {
        None => Some(Seq::empty()),
        Some(JsonView::Array(items)) => all_of(items, decode),
        _ => None,
    }
}

/// A type that is read from JSON.
pub trait Decode: View + Sized {
    /// The value that a JSON value stands for, if it stands for one.
    spec fn decoded(json: JsonView) -> Option<Self::V>;

    /// Reads the value that a JSON value stands for.
    fn from_json(json: &Json) -> (value: Option<Self>)
        ensures
            option_view(value) == Self::decoded(json@),
    ;
}

/// A type that is written as JSON.
pub trait Encode: View + Sized {
    /// The JSON value that stands for a value.
    spec fn encoded(value: Self::V) -> JsonView;

    /// Writes this value as JSON.
    fn to_json(&self) -> (json: Json)
        ensures
            json@ == Self::encoded(self@),
    ;
}

impl Json {
    /// Whether this has the form of a record of so many fields.
    pub(crate) fn is_record(&self, width: usize) -> (is: bool)
        ensures
            is == is_record(self@, width as nat),
    {
        match self {
            Json::Object(_) => true,
            Json::Array(items) => {
                proof {
                    lemma_items_index(items@);
                }
                items.len() <= width
            },
            _ => false,
        }
    }

    /// The field that has this name, or this position.
    pub(crate) fn field(&self, index: usize, name: &str) -> (value: Option<&Json>)
        ensures
            option_view(value) == field(self@, index as int, name@),
    {
        match self {
            Json::Array(items) => {
                proof {
                    lemma_items_index(items@);
                }
                if index < items.len() {
                    Some(&items[index])
                } else {
                    None
                }
            },
            _ => self.get(name),
        }
    }
}

/// Reads a field that must hold text.
pub(crate) fn read_text(field: Option<&Json>) -> (text: Option<String>)
    ensures
        option_view(text) == text_of(option_view(field)),
{
    match field {
        Some(Json::Str(s)) => Some(s.clone()),
        _ => None,
    }
}

/// Reads a field that holds text, or is left out for no text at all.
pub(crate) fn read_text_or_empty(field: Option<&Json>) -> (text: Option<String>)
    ensures
        option_view(text) == text_or_empty_of(option_view(field)),
{
    match field {
        None => Some(String::new()),
        _ => read_text(field),
    }
}

/// Reads a field that holds text, or is null or left out.
pub(crate) fn read_optional_text(field: Option<&Json>) -> (text: Option<Option<String>>)
    ensures
        optional_text_of(option_view(field)) == (match text {
            Some(text) => Some(option_view(text)),
            None => None,
        }),
{
    match field {
        None => Some(None),
        Some(Json::Null) => Some(None),
        Some(Json::Str(s)) => Some(Some(s.clone())),
        _ => None,
    }
}

/// Reads a field that holds a truth value, or is left out for false.
pub(crate) fn read_flag(field: Option<&Json>) -> (flag: Option<bool>)
    ensures
        flag == flag_of(option_view(field)),
{
    match field {
        None => Some(false),
        Some(Json::Bool(b)) => Some(*b),
        _ => None,
    }
}

/// Reads a field that holds any value, or is left out for null.
pub(crate) fn read_value(field: Option<&Json>) -> (value: Json)
    ensures
        value@ == value_of(option_view(field)),
{
    match field {
        None => Json::Null,
        Some(value) => value.clone(),
    }
}

/// Reads a field that holds a list, or is left out for an empty one.
pub(crate) fn read_list<T: Decode>(field: Option<&Json>) -> (list: Option<Vec<T>>)
    ensures
        list_of(option_view(field), |item: JsonView| T::decoded(item)) == (match list {
            Some(list) => Some(views(list@)),
            None => None,
        }),
{
    let ghost decode = |item: JsonView| T::decoded(item);
    match field {
        None => {
            let list: Vec<T> = Vec::new();
            assert(views(list@) =~= Seq::empty());
            Some(list)
        },
        Some(Json::Array(items)) => {
            let mut list: Vec<T> = Vec::new();
            let mut i: usize = 0;
            proof {
                lemma_items_index(items@);
            }
            while i < items.len()
                invariant
                    i <= items.len(),
                    decode == (|item: JsonView| T::decoded(item)),
                    option_view(field) == Some(JsonView::Array(items_view(items@))),
                    items_view(items@).len() == items.len(),
                    forall|j: int|
                        0 <= j < items.len() ==> #[trigger] items_view(items@)[j] == items@[j]@,
                    list.len() == i,
                    forall|j: int|
                        0 <= j < i ==> decode(#[trigger] items_view(items@)[j]) == Some(list@[j]@),
                decreases items.len() - i,
            {
                match T::from_json(&items[i]) {
                    Some(item) => {
                        list.push(item);
                    },
                    None => {
                        assert(decode(items_view(items@)[i as int]) is None);
                        return None;
                    },
                }
                i += 1;
            }
            assert(views(list@) =~= items_view(items@).map_values(
                |item: JsonView| decode(item)->0,
            ));
            Some(list)
        },
        _ => None,
    }
}

impl Decode for Json {
    open spec fn decoded(json: JsonView) -> Option<JsonView> {
        Some(json)
    }

    fn from_json(json: &Json) -> (value: Option<Json>) {
        Some(json.clone())
    }
}

/// The fields of an object that has none yet.
pub(crate) fn no_fields() -> (fields: Vec<(String, Json)>)
    ensures
        fields_view(fields@) == Map::<Seq<char>, JsonView>::empty(),
{
    Vec::new()
}

/// Sets a field.
pub(crate) fn set_field(fields: &mut Vec<(String, Json)>, name: &str, value: Json)
    ensures
        fields_view(final(fields)@) == fields_view(old(fields)@).insert(name@, value@),
{
    let field = (name.to_owned(), value);
    proof {
        lemma_fields_push(fields@, field);
    }
    fields.push(field);
}

/// Text as JSON.
pub(crate) fn write_text(text: &String) -> (json: Json)
    ensures
        json@ == JsonView::Str(text@),
{
    Json::Str(text.clone())
}

/// Text, or null for none.
pub open spec fn optional_text(text: Option<Seq<char>>) -> JsonView {
    match text {
        Some(text) => JsonView::Str(text),
        None => JsonView::Null,
    }
}

/// Text as JSON, or null for none.
pub(crate) fn write_optional_text(text: &Option<String>) -> (json: Json)
    ensures
        json@ == optional_text(option_view(*text)),
{
    match text {
        Some(text) => write_text(text),
        None => Json::Null,
    }
}

// ---------------------------------------------------------------------------
// Laws
// ---------------------------------------------------------------------------

/// A list shows its items, in their order.
pub proof fn law_list_shows_its_items<T: View>(items: Seq<T>)
    ensures
        views(items).len() == items.len(),
        forall|i: int| 0 <= i < items.len() ==> #[trigger] views(items)[i] == items[i]@,
{
}

} // verus!
