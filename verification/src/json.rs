//! JSON values: the library's own tree, its mathematical model, and the bridge to `serde_json`.
//!
//! [`Json`] is what the rest of the library reads and builds. Text is turned into it, and it is
//! turned into text, by `serde_json`; the conversion between its tree and a `serde_json::Value`
//! is done here, one level at a time.

use vstd::prelude::*;

use crate::error::{ErrorView, McpError};

verus! {

broadcast use vstd::group_vstd_default;

// ---------------------------------------------------------------------------
// The tree and its model
// ---------------------------------------------------------------------------

/// A JSON number as `serde_json` keeps it.
#[verifier::external_type_specification]
#[verifier::external_body]
pub struct ExNumber(serde_json::Number);

/// A JSON tree as `serde_json` keeps it.
#[verifier::external_type_specification]
#[verifier::external_body]
pub struct ExValue(serde_json::Value);

/// Why `serde_json` could not read or write something.
#[verifier::external_type_specification]
#[verifier::external_body]
pub struct ExJsonError(serde_json::Error);

/// `Number::clone` copies the number.
pub assume_specification[ <serde_json::Number as Clone>::clone ](
    number: &serde_json::Number,
) -> (copy: serde_json::Number)
    ensures
        copy == *number,
;

/// The integer that `Number::as_u64` gives for a number.
pub uninterp spec fn number_u64(number: serde_json::Number) -> Option<u64>;

/// The integer that `Number::as_i64` gives for a number.
pub uninterp spec fn number_i64(number: serde_json::Number) -> Option<i64>;

/// `Number::as_u64` gives the number where it is an integer in the range of `u64`.
pub assume_specification[ serde_json::Number::as_u64 ](
    number: &serde_json::Number,
) -> (integer: Option<u64>)
    ensures
        integer == number_u64(*number),
;

/// `Number::as_i64` gives the number where it is an integer in the range of `i64`.
pub assume_specification[ serde_json::Number::as_i64 ](
    number: &serde_json::Number,
) -> (integer: Option<i64>)
    ensures
        integer == number_i64(*number),
;

/// A JSON value.
///
/// Integers are told apart by sign, and other numbers are left as `serde_json` keeps them. An
/// object is a list of named fields; where a name occurs twice the later field counts.
#[derive(Debug)]
pub enum Json {
    Null,
    Bool(bool),
    PosInt(u64),
    NegInt(i64),
    Float(serde_json::Number),
    Str(String),
    Array(Vec<Json>),
    Object(Vec<(String, Json)>),
}

/// What a [`Json`] means: an array is a sequence, an object is a map from names to values.
#[verifier::ext_equal]
pub enum JsonView {
    Null,
    Bool(bool),
    PosInt(u64),
    NegInt(i64),
    Float(serde_json::Number),
    Str(Seq<char>),
    Array(Seq<JsonView>),
    Object(Map<Seq<char>, JsonView>),
}

/// The integer `i`: zero and above are not negative, however they were written down.
pub open spec fn signed(i: i64) -> JsonView {
    if i < 0 {
        JsonView::NegInt(i)
    } else {
        JsonView::PosInt(i as u64)
    }
}

/// What a number of `serde_json` is: an integer where it gives one, and else a fraction.
pub open spec fn number_view(number: serde_json::Number) -> JsonView {
    match (number_u64(number), number_i64(number)) {
        (Some(u), _) => JsonView::PosInt(u),
        (None, Some(i)) => signed(i),
        (None, None) => JsonView::Float(number),
    }
}

/// The values of an array's items.
pub open spec fn items_view(items: Seq<Json>) -> Seq<JsonView>
    decreases items,
{
    if items.len() == 0 {
        Seq::empty()
    } else {
        items_view(items.drop_last()).push(json_view(items.last()))
    }
}

/// The map that a list of fields describes.
pub open spec fn fields_view(fields: Seq<(String, Json)>) -> Map<Seq<char>, JsonView>
    decreases fields,
{
    if fields.len() == 0 {
        Map::empty()
    } else {
        fields_view(fields.drop_last()).insert(fields.last().0@, json_view(fields.last().1))
    }
}

/// The meaning of a value.
pub open spec fn json_view(json: Json) -> JsonView
    decreases json,
{
    match json {
        Json::Null => JsonView::Null,
        Json::Bool(b) => JsonView::Bool(b),
        Json::PosInt(u) => JsonView::PosInt(u),
        Json::NegInt(i) => signed(i),
        Json::Float(n) => number_view(n),
        Json::Str(s) => JsonView::Str(s@),
        Json::Array(items) => JsonView::Array(items_view(items@)),
        Json::Object(fields) => JsonView::Object(fields_view(fields@)),
    }
}

impl View for Json {
    type V = JsonView;

    open spec fn view(&self) -> JsonView {
        json_view(*self)
    }
}

/// Appending an item appends its value.
pub proof fn lemma_items_push(items: Seq<Json>, item: Json)
    ensures
        items_view(items.push(item)) == items_view(items).push(item@),
{
    assert(items.push(item).drop_last() =~= items);
}

/// The values of an array's items stand where the items stand.
pub proof fn lemma_items_index(items: Seq<Json>)
    ensures
        items_view(items).len() == items.len(),
        forall|i: int| 0 <= i < items.len() ==> #[trigger] items_view(items)[i] == items[i]@,
    decreases items.len(),
{
    if items.len() > 0 {
        lemma_items_index(items.drop_last());
    }
}

/// Appending a field sets its name in the map.
pub proof fn lemma_fields_push(fields: Seq<(String, Json)>, field: (String, Json))
    ensures
        fields_view(fields.push(field)) == fields_view(fields).insert(field.0@, field.1@),
{
    assert(fields.push(field).drop_last() =~= fields);
}

impl Clone for Json {
    fn clone(&self) -> (copy: Self)
        ensures
            copy@ == self@,
        decreases self,
    {
        match self {
            Json::Null => Json::Null,
            Json::Bool(b) => Json::Bool(*b),
            Json::PosInt(u) => Json::PosInt(*u),
            Json::NegInt(i) => Json::NegInt(*i),
            Json::Float(n) => Json::Float(n.clone()),
            Json::Str(s) => Json::Str(s.clone()),
            Json::Array(items) => {
                let mut out: Vec<Json> = Vec::new();
                let mut i: usize = 0;
                while i < items.len()
                    invariant
                        i <= items.len(),
                        *self matches Json::Array(list) && list == *items,
                        items_view(out@) == items_view(items@.take(i as int)),
                    decreases items.len() - i,
                {
                    let item = items[i].clone();
                    proof {
                        lemma_items_push(out@, item);
                        lemma_items_push(items@.take(i as int), items@[i as int]);
                        assert(items@.take(i + 1) =~= items@.take(i as int).push(items@[i as int]));
                    }
                    out.push(item);
                    i += 1;
                }
                assert(items@.take(i as int) =~= items@);
                Json::Array(out)
            },
            Json::Object(fields) => {
                let mut out: Vec<(String, Json)> = Vec::new();
                let mut i: usize = 0;
                while i < fields.len()
                    invariant
                        i <= fields.len(),
                        *self matches Json::Object(list) && list == *fields,
                        fields_view(out@) == fields_view(fields@.take(i as int)),
                    decreases fields.len() - i,
                {
                    let field = (fields[i].0.clone(), fields[i].1.clone());
                    proof {
                        lemma_fields_push(out@, field);
                        lemma_fields_push(fields@.take(i as int), fields@[i as int]);
                        assert(fields@.take(i + 1) =~= fields@.take(i as int).push(
                            fields@[i as int],
                        ));
                    }
                    out.push(field);
                    i += 1;
                }
                assert(fields@.take(i as int) =~= fields@);
                Json::Object(out)
            },
        }
    }
}

// ---------------------------------------------------------------------------
// Reading a tree
// ---------------------------------------------------------------------------

/// The field `name` of an object; nothing has no fields.
pub open spec fn member(json: JsonView, name: Seq<char>) -> Option<JsonView> {
    match json {
        JsonView::Object(fields) => if fields.contains_key(name) {
            Some(fields[name])
        } else {
            None
        },
        _ => None,
    }
}

/// The view of an optional value.
pub open spec fn option_view<T: View>(value: Option<T>) -> Option<T::V> {
    match value {
        Some(value) => Some(value@),
        None => None,
    }
}

impl Json {
    /// The field `name`, if this is an object that has one.
    pub fn get(&self, name: &str) -> (value: Option<&Json>)
        ensures
            option_view(value) == member(self@, name@),
    {
        match self {
            Json::Object(fields) => {
                let mut i: usize = fields.len();
                proof {
                    assert(fields@.take(i as int) =~= fields@);
                }
                while i > 0
                    invariant
                        i <= fields.len(),
                        fields_view(fields@).contains_key(name@) <==> fields_view(
                            fields@.take(i as int),
                        ).contains_key(name@),
                        fields_view(fields@).contains_key(name@) ==> fields_view(fields@)[name@]
                            == fields_view(fields@.take(i as int))[name@],
                        self@ == JsonView::Object(fields_view(fields@)),
                    decreases i,
                {
                    i -= 1;
                    proof {
                        assert(fields@.take(i + 1) =~= fields@.take(i as int).push(
                            fields@[i as int],
                        ));
                        lemma_fields_push(fields@.take(i as int), fields@[i as int]);
                    }
                    if crate::text::same_text(fields[i].0.as_str(), name) {
                        return Some(&fields[i].1);
                    }
                }
                None
            },
            _ => None,
        }
    }

    /// The text, if this is a string.
    pub fn as_str(&self) -> (text: Option<&str>)
        ensures
            option_view(text) == (match self@ {
                JsonView::Str(s) => Some(s),
                _ => None,
            }),
    {
        match self {
            Json::Str(s) => Some(s.as_str()),
            _ => None,
        }
    }

    /// The number, if this is an integer that is not negative.
    pub fn as_u64(&self) -> (number: Option<u64>)
        ensures
            number == (match self@ {
                JsonView::PosInt(u) => Some(u),
                _ => None,
            }),
    {
        match self {
            Json::PosInt(u) => Some(*u),
            Json::NegInt(i) => if *i >= 0 {
                Some(*i as u64)
            } else {
                None
            },
            Json::Float(n) => match (n.as_u64(), n.as_i64()) {
                (Some(u), _) => Some(u),
                (None, Some(i)) if i >= 0 => Some(i as u64),
                _ => None,
            },
            _ => None,
        }
    }

    /// The number, if this is an integer between `i64::MIN` and `i64::MAX`.
    pub fn as_i64(&self) -> (number: Option<i64>)
        ensures
            number == as_signed(self@),
    {
        match self {
            Json::PosInt(u) => if *u <= i64::MAX as u64 {
                Some(*u as i64)
            } else {
                None
            },
            Json::NegInt(i) => Some(*i),
            Json::Float(n) => match (n.as_u64(), n.as_i64()) {
                (Some(u), _) => if u <= i64::MAX as u64 {
                    Some(u as i64)
                } else {
                    None
                },
                (None, i) => i,
            },
            _ => None,
        }
    }
}

/// The integer of that range that a value is, if it is one.
pub open spec fn as_signed(json: JsonView) -> Option<i64> {
    match json {
        JsonView::PosInt(u) => if u <= i64::MAX {
            Some(u as i64)
        } else {
            None
        },
        JsonView::NegInt(i) => Some(i),
        _ => None,
    }
}

// ---------------------------------------------------------------------------
// The bridge to `serde_json`
// ---------------------------------------------------------------------------

/// One level of a `serde_json::Value`: which kind of value it is, its children still closed.
enum ValueParts {
    Null,
    Bool(bool),
    Number(serde_json::Number),
    Str(String),
    Array(Vec<serde_json::Value>),
    Object(Vec<(String, serde_json::Value)>),
}

/// What a `serde_json::Value` holds.
pub uninterp spec fn value_view(value: serde_json::Value) -> JsonView;

/// What the items of a `serde_json` array hold.
spec fn value_items_view(items: Seq<serde_json::Value>) -> Seq<JsonView> {
    items.map_values(|item: serde_json::Value| value_view(item))
}

/// The map that a list of named values describes; where a name occurs twice the later counts.
spec fn value_fields_view(fields: Seq<(String, serde_json::Value)>) -> Map<
    Seq<char>,
    JsonView,
>
    decreases fields.len(),
{
    if fields.len() == 0 {
        Map::empty()
    } else {
        value_fields_view(fields.drop_last()).insert(fields.last().0@, value_view(fields.last().1))
    }
}

/// No name occurs twice.
spec fn distinct_names(fields: Seq<(String, serde_json::Value)>) -> bool {
    forall|i: int, j: int|
        0 <= i < j < fields.len() ==> (#[trigger] fields[i]).0@ != (#[trigger] fields[j]).0@
}

impl View for ValueParts {
    type V = JsonView;

    closed spec fn view(&self) -> JsonView {
        match *self {
            ValueParts::Null => JsonView::Null,
            ValueParts::Bool(b) => JsonView::Bool(b),
            ValueParts::Number(n) => number_view(n),
            ValueParts::Str(s) => JsonView::Str(s@),
            ValueParts::Array(items) => JsonView::Array(value_items_view(items@)),
            ValueParts::Object(fields) => JsonView::Object(value_fields_view(fields@)),
        }
    }
}

/// Takes a `serde_json::Value` apart by matching on its variants. The fields of an object come
/// out with distinct names.
#[verifier::external_body]
fn open_value(value: serde_json::Value) -> (parts: ValueParts)
    ensures
        parts@ == value_view(value),
        parts matches ValueParts::Object(fields) ==> distinct_names(fields@),
{
    match value {
        serde_json::Value::Null => ValueParts::Null,
        serde_json::Value::Bool(b) => ValueParts::Bool(b),
        serde_json::Value::Number(n) => ValueParts::Number(n),
        serde_json::Value::String(s) => ValueParts::Str(s),
        serde_json::Value::Array(items) => ValueParts::Array(items),
        serde_json::Value::Object(fields) => ValueParts::Object(fields.into_iter().collect()),
    }
}

/// Puts a `serde_json::Value` together from one level of it: the variant that the part names,
/// holding what the part holds. The fields of an object are put in one after the other with
/// `Map::insert`, which puts the later of two fields of one name in the place of the earlier.
#[verifier::external_body]
fn close_value(parts: ValueParts) -> (value: serde_json::Value)
    ensures
        value_view(value) == parts@,
{
    match parts {
        ValueParts::Null => serde_json::Value::Null,
        ValueParts::Bool(b) => serde_json::Value::Bool(b),
        ValueParts::Number(n) => serde_json::Value::Number(n),
        ValueParts::Str(s) => serde_json::Value::String(s),
        ValueParts::Array(items) => serde_json::Value::Array(items),
        ValueParts::Object(fields) => {
            let mut map = serde_json::Map::new();
            for (name, value) in fields {
                map.insert(name, value);
            }
            serde_json::Value::Object(map)
        },
    }
}

/// `Number::from` makes the number that is this integer.
#[verifier::external_body]
fn number_of_u64(u: u64) -> (number: serde_json::Number)
    ensures
        number_view(number) == JsonView::PosInt(u),
{
    serde_json::Number::from(u)
}

/// `Number::from` makes the number that is this integer.
#[verifier::external_body]
fn number_of_i64(i: i64) -> (number: serde_json::Number)
    ensures
        number_view(number) == signed(i),
{
    serde_json::Number::from(i)
}

proof fn lemma_value_fields_push(
    fields: Seq<(String, serde_json::Value)>,
    field: (String, serde_json::Value),
)
    ensures
        value_fields_view(fields.push(field)) == value_fields_view(fields).insert(
            field.0@,
            value_view(field.1),
        ),
{
    assert(fields.push(field).drop_last() =~= fields);
}

/// Every field of an object without double names is in the map, and below it.
proof fn lemma_value_field_decreases(fields: Seq<(String, serde_json::Value)>, k: int)
    requires
        distinct_names(fields),
        0 <= k < fields.len(),
    ensures
        value_fields_view(fields).dom().finite(),
        value_fields_view(fields).contains_key(fields[k].0@),
        value_fields_view(fields)[fields[k].0@] == value_view(fields[k].1),
    decreases fields.len(),
{
    let rest = fields.drop_last();
    if rest.len() > 0 {
        let j = if k < rest.len() { k } else { 0 };
        lemma_value_field_decreases(rest, j);
        assert(fields[j].0@ != fields[rest.len() as int].0@);
    } else {
        assert(value_fields_view(rest) =~= Map::empty());
    }
}

/// The library's tree of what a `serde_json::Value` holds.
fn json_of_value(value: serde_json::Value) -> (json: Json)
    ensures
        json@ == value_view(value),
    decreases value_view(value),
{
    let parts = open_value(value);
    match parts {
        ValueParts::Null => Json::Null,
        ValueParts::Bool(b) => Json::Bool(b),
        ValueParts::Number(n) => match (n.as_u64(), n.as_i64()) {
            (Some(u), _) => Json::PosInt(u),
            (None, Some(i)) => Json::NegInt(i),
            (None, None) => Json::Float(n),
        },
        ValueParts::Str(s) => Json::Str(s),
        ValueParts::Array(items) => {
            let ghost all = items@;
            let mut out: Vec<Json> = Vec::new();
            for item in it: items
                invariant
                    value_view(value) matches JsonView::Array(list)
                        && list == value_items_view(all),
                    it.seq() == all,
                    items_view(out@) == value_items_view(all.take(it.index() as int)),
            {
                proof {
                    let k = it.index() as int;
                    assert(item == all[k]);
                    assert(value_items_view(all)[k] == value_view(item));
                    assert(value_items_view(all.take(k + 1)) =~= value_items_view(all.take(k)).push(
                        value_view(item),
                    ));
                }
                let json = json_of_value(item);
                proof {
                    lemma_items_push(out@, json);
                }
                out.push(json);
            }
            assert(all.take(all.len() as int) =~= all);
            Json::Array(out)
        },
        ValueParts::Object(fields) => {
            let ghost all = fields@;
            let mut out: Vec<(String, Json)> = Vec::new();
            for field in it: fields
                invariant
                    distinct_names(all),
                    value_view(value) matches JsonView::Object(map)
                        && map == value_fields_view(all),
                    it.seq() == all,
                    fields_view(out@) == value_fields_view(all.take(it.index() as int)),
            {
                let (name, child) = field;
                proof {
                    let k = it.index() as int;
                    assert(field == all[k]);
                    lemma_value_field_decreases(all, k);
                    lemma_value_fields_push(all.take(k), field);
                    assert(all.take(k + 1) =~= all.take(k).push(field));
                }
                let json = json_of_value(child);
                proof {
                    lemma_fields_push(out@, (name, json));
                }
                out.push((name, json));
            }
            assert(all.take(all.len() as int) =~= all);
            Json::Object(out)
        },
    }
}

/// The `serde_json::Value` that holds what the library's tree means.
fn value_of_json(json: &Json) -> (value: serde_json::Value)
    ensures
        value_view(value) == json@,
    decreases json,
{
    let parts = match json {
        Json::Null => ValueParts::Null,
        Json::Bool(b) => ValueParts::Bool(*b),
        Json::PosInt(u) => ValueParts::Number(number_of_u64(*u)),
        Json::NegInt(i) => ValueParts::Number(number_of_i64(*i)),
        Json::Float(n) => ValueParts::Number(n.clone()),
        Json::Str(s) => ValueParts::Str(s.clone()),
        Json::Array(items) => {
            let mut out: Vec<serde_json::Value> = Vec::new();
            let mut i: usize = 0;
            while i < items.len()
                invariant
                    i <= items.len(),
                    *json matches Json::Array(list) && list == *items,
                    value_items_view(out@) == items_view(items@.take(i as int)),
                decreases items.len() - i,
            {
                let child = value_of_json(&items[i]);
                proof {
                    lemma_items_push(items@.take(i as int), items@[i as int]);
                    assert(items@.take(i + 1) =~= items@.take(i as int).push(items@[i as int]));
                    assert(value_items_view(out@.push(child)) =~= value_items_view(out@).push(
                        value_view(child),
                    ));
                }
                out.push(child);
                i += 1;
            }
            assert(items@.take(i as int) =~= items@);
            ValueParts::Array(out)
        },
        Json::Object(fields) => {
            let mut out: Vec<(String, serde_json::Value)> = Vec::new();
            let mut i: usize = 0;
            while i < fields.len()
                invariant
                    i <= fields.len(),
                    *json matches Json::Object(list) && list == *fields,
                    value_fields_view(out@) == fields_view(fields@.take(i as int)),
                decreases fields.len() - i,
            {
                let child = (fields[i].0.clone(), value_of_json(&fields[i].1));
                proof {
                    lemma_fields_push(fields@.take(i as int), fields@[i as int]);
                    assert(fields@.take(i + 1) =~= fields@.take(i as int).push(fields@[i as int]));
                    lemma_value_fields_push(out@, child);
                }
                out.push(child);
                i += 1;
            }
            assert(fields@.take(i as int) =~= fields@);
            ValueParts::Object(out)
        },
    };
    close_value(parts)
}

// ---------------------------------------------------------------------------
// Text
// ---------------------------------------------------------------------------

/// What `serde_json::from_str` reads from a text: a value, or what its error says.
pub uninterp spec fn json_parsed(text: Seq<char>) -> Result<JsonView, Seq<char>>;

/// What `serde_json::Error` says, as `to_string` gives it.
pub uninterp spec fn error_said(error: serde_json::Error) -> Seq<char>;

/// The value that a text stands for, if it stands for one.
pub open spec fn json_text(text: Seq<char>) -> Option<JsonView> {
    match json_parsed(text) {
        Ok(value) => Some(value),
        Err(_) => None,
    }
}

/// The bytes that `serde_json::to_vec` writes for a value.
pub uninterp spec fn json_bytes(value: JsonView) -> Seq<u8>;

/// No fraction occurs in the value, and arrays and objects are nested at most `depth` deep.
pub open spec fn plain_within(value: JsonView, depth: nat) -> bool
    decreases depth,
{
    match value {
        JsonView::Float(_) => false,
        JsonView::Array(items) => depth > 0 && forall|i: int|
            0 <= i < items.len() ==> plain_within(#[trigger] items[i], (depth - 1) as nat),
        JsonView::Object(fields) => depth > 0 && forall|name: Seq<char>|
            fields.contains_key(name) ==> plain_within(#[trigger] fields[name], (depth - 1) as nat),
        _ => true,
    }
}

/// Values that survive being written and read: no fraction, whose last digit the reader may
/// round, and no deeper nesting than the reader follows.
pub open spec fn plain(value: JsonView) -> bool {
    plain_within(value, 127)
}

/// A visible ASCII character.
pub open spec fn visible(c: char) -> bool {
    '!' <= c <= '~'
}

/// The bytes are UTF-8 text on one line that begins and ends with a visible character.
pub open spec fn one_line(bytes: Seq<u8>) -> bool {
    let text = vstd::utf8::decode_utf8(bytes);
    &&& vstd::utf8::valid_utf8(bytes)
    &&& forall|i: int| 0 <= i < bytes.len() ==> #[trigger] bytes[i] != 10
    &&& text.len() > 0
    &&& visible(text.first())
    &&& visible(text.last())
}

/// Reads a JSON text with `serde_json::from_str`. What it reads, whether it does, and what its
/// error says if it does not, depends on the text alone.
#[verifier::external_body]
fn parse_value(text: &str) -> (parsed: Result<serde_json::Value, serde_json::Error>)
    ensures
        json_parsed(text@) == (match parsed {
            Ok(value) => Ok(value_view(value)),
            Err(error) => Err(error_said(error)),
        }),
{
    serde_json::from_str::<serde_json::Value>(text)
}

/// Writes a JSON value with `serde_json::to_vec`, which fails on no `serde_json::Value`. The
/// bytes depend on what the value holds alone. They are compact: one line of UTF-8 without
/// surrounding blanks, as control characters in strings are escaped. Unless a fraction or deep
/// nesting is involved, `serde_json::from_str` reads the value back from them.
#[verifier::external_body]
fn write_value(value: &serde_json::Value) -> (written: Result<Vec<u8>, serde_json::Error>)
    ensures
        written is Ok,
        written->Ok_0@ == json_bytes(value_view(*value)),
        one_line(written->Ok_0@),
        plain(value_view(*value)) ==> json_text(vstd::utf8::decode_utf8(written->Ok_0@)) == Some(
            value_view(*value),
        ),
{
    serde_json::to_vec(value)
}

/// What a `serde_json::Error` says, as `to_string` gives it.
#[verifier::external_body]
fn error_words(error: &serde_json::Error) -> (words: String)
    ensures
        words@ == error_said(*error),
{
    error.to_string()
}

impl Json {
    /// Reads a JSON text.
    pub fn from_text(text: &str) -> (parsed: Result<Json, McpError>)
        ensures
            match json_parsed(text@) {
                Ok(json) => parsed is Ok && parsed->Ok_0@ == json,
                Err(words) => parsed is Err && parsed->Err_0@ == ErrorView::Serde(words),
            },
    {
        match parse_value(text) {
            Ok(value) => Ok(json_of_value(value)),
            Err(error) => Err(McpError::Serde(error_words(&error))),
        }
    }

    /// Writes this value as compact JSON, from which a plain value can be read back.
    pub fn to_bytes(&self) -> (bytes: Vec<u8>)
        ensures
            bytes@ == json_bytes(self@),
            one_line(bytes@),
            plain(self@) ==> json_text(vstd::utf8::decode_utf8(bytes@)) == Some(self@),
    {
        match write_value(&value_of_json(self)) {
            Ok(bytes) => bytes,
            Err(_) => {
                assert(false);
                Vec::new()
            },
        }
    }
}

// ---------------------------------------------------------------------------
// Laws
// ---------------------------------------------------------------------------

/// The fields of an object, one by one: each name is there, and the last field of a name counts.
proof fn lemma_fields_one_by_one(fields: Seq<(String, Json)>)
    ensures
        forall|name: Seq<char>| #[trigger]
            fields_view(fields).contains_key(name) <==> exists|i: int|
                0 <= i < fields.len() && (#[trigger] fields[i]).0@ == name,
        forall|i: int|
            0 <= i < fields.len() && (forall|j: int|
                i < j < fields.len() ==> (#[trigger] fields[j]).0@ != fields[i].0@)
                ==> fields_view(fields)[(#[trigger] fields[i]).0@] == fields[i].1@,
    decreases fields.len(),
{
    if fields.len() > 0 {
        let rest = fields.drop_last();
        let last = fields.len() - 1;
        lemma_fields_one_by_one(rest);
        assert forall|name: Seq<char>| #[trigger]
            fields_view(fields).contains_key(name) <==> exists|i: int|
                0 <= i < fields.len() && (#[trigger] fields[i]).0@ == name by {
            if fields_view(rest).contains_key(name) {
                let i = choose|i: int| 0 <= i < rest.len() && (#[trigger] rest[i]).0@ == name;
                assert(fields[i].0@ == name);
            }
            if exists|i: int| 0 <= i < fields.len() && (#[trigger] fields[i]).0@ == name {
                let i = choose|i: int| 0 <= i < fields.len() && (#[trigger] fields[i]).0@ == name;
                if i < last {
                    assert(rest[i].0@ == name);
                }
            }
            if name == fields[last].0@ {
                assert(fields[last].0@ == name);
            }
        }
        assert forall|i: int|
            0 <= i < fields.len() && (forall|j: int|
                i < j < fields.len() ==> (#[trigger] fields[j]).0@
                    != fields[i].0@) implies fields_view(fields)[(#[trigger] fields[i]).0@]
            == fields[i].1@ by {
            if i < last {
                assert(fields[last].0@ != fields[i].0@);
                assert(rest[i] == fields[i]);
                assert forall|j: int| i < j < rest.len() implies (#[trigger] rest[j]).0@
                    != rest[i].0@ by {
                    assert(fields[j].0@ != fields[i].0@);
                }
            }
        }
    }
}

/// A value means what it holds: integers by their sign, arrays item by item, and of an object each
/// field by its name, where the last of a name counts.
pub proof fn law_value_means_what_it_holds(json: Json)
    ensures
        match json {
            Json::Null => json@ is Null,
            Json::Bool(b) => json@ == JsonView::Bool(b),
            Json::PosInt(u) => json@ == JsonView::PosInt(u),
            Json::NegInt(i) => {
                &&& i < 0 ==> json@ == JsonView::NegInt(i)
                &&& i >= 0 ==> json@ == JsonView::PosInt(i as u64)
            },
            Json::Float(n) => {
                &&& number_u64(n) is Some ==> json@ == JsonView::PosInt(number_u64(n)->0)
                &&& number_u64(n) is None && number_i64(n) is Some ==> json@ == Json::NegInt(
                    number_i64(n)->0,
                )@
                &&& number_u64(n) is None && number_i64(n) is None ==> json@ == JsonView::Float(n)
            },
            Json::Str(s) => json@ == JsonView::Str(s@),
            Json::Array(items) => {
                &&& json@ is Array
                &&& json@->Array_0.len() == items@.len()
                &&& forall|i: int|
                    0 <= i < items@.len() ==> json@->Array_0[i] == #[trigger] items@[i]@
            },
            Json::Object(fields) => {
                &&& json@ is Object
                &&& forall|name: Seq<char>| #[trigger]
                    json@->Object_0.contains_key(name) <==> exists|i: int|
                        0 <= i < fields@.len() && (#[trigger] fields@[i]).0@ == name
                &&& forall|i: int|
                    0 <= i < fields@.len() && (forall|j: int|
                        i < j < fields@.len() ==> (#[trigger] fields@[j]).0@ != fields@[i].0@)
                        ==> json@->Object_0[(#[trigger] fields@[i]).0@] == fields@[i].1@
            },
        },
{
    match json {
        Json::Array(items) => {
            lemma_items_index(items@);
        },
        Json::Object(fields) => {
            lemma_fields_one_by_one(fields@);
        },
        _ => {},
    }
}

/// An object has the members that are in it, and nothing else has any.
pub proof fn law_members_are_those_of_the_object(json: JsonView, name: Seq<char>)
    ensures
        json is Object && json->Object_0.contains_key(name) ==> member(json, name) == Some(
            json->Object_0[name],
        ),
        json is Object && !json->Object_0.contains_key(name) ==> member(json, name) is None,
        !(json is Object) ==> member(json, name) is None,
{
}

/// A signed integer is told from a value exactly if it is one and in range.
pub proof fn law_signed_integers_are_told(json: JsonView, i: i64)
    ensures
        as_signed(json) == Some(i) <==> json == JsonView::NegInt(i) || (i >= 0 && json
            == JsonView::PosInt(i as u64)),
        as_signed(signed(i)) == Some(i),
        i < 0 ==> signed(i) == JsonView::NegInt(i),
        i >= 0 ==> signed(i) == JsonView::PosInt(i as u64),
{
}

/// An optional value shows what it holds.
pub proof fn law_option_shows_its_value<T: View>(value: Option<T>)
    ensures
        option_view(value) is Some <==> value is Some,
        value is Some ==> option_view(value)->0 == value->0@,
{
}

/// A text stands for the value that is read from it, if one is.
pub proof fn law_text_stands_for_what_is_read(text: Seq<char>, value: JsonView)
    ensures
        json_text(text) == Some(value) <==> json_parsed(text) == Ok::<JsonView, Seq<char>>(value),
        json_text(text) is None <==> json_parsed(text) is Err,
{
}

/// Scalars but fractions are plain at any depth, and a list is as plain as its items one level
/// down.
pub proof fn law_plain_values(value: JsonView, depth: nat)
    ensures
        !(value is Float) && !(value is Array) && !(value is Object) ==> plain_within(value, depth),
        value is Float ==> !plain_within(value, depth),
        value is Array ==> (plain_within(value, depth + 1) <==> forall|i: int|
            0 <= i < value->Array_0.len() ==> plain_within(#[trigger] value->Array_0[i], depth)),
        value is Object ==> (plain_within(value, depth + 1) <==> forall|name: Seq<char>|
            value->Object_0.contains_key(name) ==> plain_within(
                #[trigger] value->Object_0[name],
                depth,
            )),
        plain(value) <==> plain_within(value, 127),
{
}

} // verus!
