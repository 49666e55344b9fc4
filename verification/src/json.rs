//! The bridge to `serde_json` and `json_canon`: a document is turned into a
//! `serde_json::Value` field by field, and the value is handed to the two
//! crates for its text.

use vstd::prelude::*;
use crate::document::{
    Document, JsonValue, fields_view, items_view, lemma_array_integral, lemma_document_integral,
    lemma_items_view, lemma_object_integral,
};

verus! {

/// `serde_json::Value`: a JSON value as `serde_json` holds it. Nothing of its
/// inside is looked at here; `json_contents` says what it holds.
#[verifier::external_type_specification]
#[verifier::external_body]
pub struct ExJsonTree(serde_json::Value);

/// What a `serde_json::Value` holds. A number that `serde_json` keeps as an
/// integer is a `Number`; any other number is a `Real`.
pub uninterp spec fn json_contents(value: serde_json::Value) -> JsonValue;

/// The text that `json_canon::to_string` gives for a value.
pub uninterp spec fn canonical_json(value: JsonValue) -> Seq<char>;

/// The text that `serde_json::to_string` gives for a value. The objects of
/// `serde_json` keep their keys sorted, so the text depends on what the value
/// holds alone.
pub uninterp spec fn json_text(value: JsonValue) -> Seq<char>;

/// What `serde_json::from_str` makes of a text: the value it holds, or nothing
/// where the text is no JSON document.
pub uninterp spec fn parsed_json(text: Seq<char>) -> Option<JsonValue>;

/// The object that a list of fields stands for: a later field replaces an
/// earlier one of the same key.
pub open spec fn entries_view(entries: Seq<(&String, &serde_json::Value)>) -> Map<
    Seq<char>,
    JsonValue,
>
    decreases entries.len(),
{
    if entries.len() == 0 {
        Map::empty()
    } else {
        entries_view(entries.drop_last()).insert(
            entries.last().0@,
            json_contents(*entries.last().1),
        )
    }
}

/// No key occurs twice among the fields.
pub open spec fn entry_keys_distinct(entries: Seq<(&String, &serde_json::Value)>) -> bool {
    forall|i: int, j: int|
        0 <= i < j < entries.len() ==> (#[trigger] entries[i]).0@ != (#[trigger] entries[j]).0@
}

/// The contents of each value of a list, in order.
pub open spec fn contents_of(values: Seq<serde_json::Value>) -> Seq<JsonValue> {
    Seq::new(values.len(), |i: int| json_contents(values[i]))
}

/// `serde_json::Value::Null`.
#[verifier::external_body]
pub(crate) fn json_null() -> (value: serde_json::Value)
    ensures
        json_contents(value) == JsonValue::Null,
{
    serde_json::Value::Null
}

/// `serde_json::Value::Bool`.
#[verifier::external_body]
pub(crate) fn json_bool(b: bool) -> (value: serde_json::Value)
    ensures
        json_contents(value) == JsonValue::Bool(b),
{
    serde_json::Value::Bool(b)
}

/// `serde_json::Value::from` on an `i64`: the number `n`.
#[verifier::external_body]
pub(crate) fn json_int(n: i64) -> (value: serde_json::Value)
    ensures
        json_contents(value) == JsonValue::Number(n as int),
{
    serde_json::Value::from(n)
}

/// `serde_json::Value::from` on a `u64`: the number `n`.
#[verifier::external_body]
pub(crate) fn json_uint(n: u64) -> (value: serde_json::Value)
    ensures
        json_contents(value) == JsonValue::Number(n as int),
{
    serde_json::Value::from(n)
}

/// `serde_json::Value::from` on a string slice: the string itself.
#[verifier::external_body]
pub(crate) fn json_string(s: &str) -> (value: serde_json::Value)
    ensures
        json_contents(value) == JsonValue::Text(s@),
{
    serde_json::Value::from(s)
}

/// `serde_json::Value::Array`: the array of the given values, in order.
#[verifier::external_body]
pub(crate) fn json_array(items: Vec<serde_json::Value>) -> (value: serde_json::Value)
    ensures
        json_contents(value) == JsonValue::Array(contents_of(items@)),
{
    serde_json::Value::Array(items)
}

/// `serde_json::Map::new` inside `Value::Object`: the object without fields.
#[verifier::external_body]
pub(crate) fn json_empty_object() -> (value: serde_json::Value)
    ensures
        json_contents(value) == JsonValue::Object(Map::empty()),
{
    serde_json::Value::Object(serde_json::Map::new())
}

/// `serde_json::Map::insert` on the map of an object: the key now leads to the
/// given value, whether or not it was present before; the other keys are unchanged.
#[verifier::external_body]
pub(crate) fn json_insert(object: &mut serde_json::Value, key: String, value: serde_json::Value)
    requires
        json_contents(*old(object)) is Object,
    ensures
        json_contents(*final(object)) == JsonValue::Object(
            json_contents(*old(object))->Object_0.insert(key@, json_contents(value)),
        ),
{
    if let serde_json::Value::Object(map) = object {
        map.insert(key, value);
    }
}

/// `json_canon::to_string`. It fails only on an integer outside the range that
/// every JSON reader holds exactly, so it succeeds on a value without one.
#[verifier::external_body]
pub(crate) fn canonical_text(value: &serde_json::Value) -> (result: Option<String>)
    requires
        json_contents(*value).canonicalizable(),
    ensures
        result is Some,
        result->Some_0@ == canonical_json(json_contents(*value)),
{
    json_canon::to_string(value).ok()
}

/// `serde_json::to_string`, which does not fail on a `serde_json::Value`.
#[verifier::external_body]
pub(crate) fn serialized_text(value: &serde_json::Value) -> (result: Option<String>)
    ensures
        result is Some,
        result->Some_0@ == json_text(json_contents(*value)),
{
    serde_json::to_string(value).ok()
}

/// `serde_json::from_str` for a `serde_json::Value`.
#[verifier::external_body]
pub(crate) fn parse_json(text: &str) -> (result: Option<serde_json::Value>)
    ensures
        match result {
            Some(value) => parsed_json(text@) == Some(json_contents(value)),
            None => parsed_json(text@) is None,
        },
{
    serde_json::from_str::<serde_json::Value>(text).ok()
}

/// `serde_json::Value::is_null`.
#[verifier::external_body]
pub(crate) fn json_is_null(value: &serde_json::Value) -> (result: bool)
    ensures
        result == (json_contents(*value) is Null),
{
    value.is_null()
}

/// `serde_json::Value::as_bool`: the boolean, where the value is one.
#[verifier::external_body]
pub(crate) fn json_as_bool(value: &serde_json::Value) -> (result: Option<bool>)
    ensures
        match result {
            Some(b) => json_contents(*value) == JsonValue::Bool(b),
            None => !(json_contents(*value) is Bool),
        },
{
    value.as_bool()
}

/// `serde_json::Value::as_i64`: the integer, where the value is one that is at
/// most `i64::MAX`. A `Value` holds no integer below `i64::MIN`.
#[verifier::external_body]
pub(crate) fn json_as_i64(value: &serde_json::Value) -> (result: Option<i64>)
    ensures
        match result {
            Some(n) => json_contents(*value) == JsonValue::Number(n as int),
            None => !(json_contents(*value) matches JsonValue::Number(m) && m <= i64::MAX),
        },
{
    value.as_i64()
}

/// `serde_json::Value::as_u64`: the integer, where the value is one that is not
/// negative. A `Value` holds no integer above `u64::MAX`.
#[verifier::external_body]
pub(crate) fn json_as_u64(value: &serde_json::Value) -> (result: Option<u64>)
    ensures
        match result {
            Some(n) => json_contents(*value) == JsonValue::Number(n as int),
            None => !(json_contents(*value) matches JsonValue::Number(m) && m >= 0),
        },
{
    value.as_u64()
}

/// `serde_json::Value::as_str`: the string, where the value is one.
#[verifier::external_body]
pub(crate) fn json_as_str(value: &serde_json::Value) -> (result: Option<&str>)
    ensures
        match result {
            Some(s) => json_contents(*value) == JsonValue::Text(s@),
            None => !(json_contents(*value) is Text),
        },
{
    value.as_str()
}

/// `serde_json::Value::as_array`: the items, where the value is an array.
#[verifier::external_body]
pub(crate) fn json_as_array(value: &serde_json::Value) -> (result: Option<
    &Vec<serde_json::Value>,
>)
    ensures
        match result {
            Some(items) => json_contents(*value) == JsonValue::Array(contents_of(items@)),
            None => !(json_contents(*value) is Array),
        },
{
    value.as_array()
}

/// `serde_json::Value::as_object` and `serde_json::Map::iter`: the fields,
/// where the value is an object. The map holds each key once.
#[verifier::external_body]
pub(crate) fn json_entries(value: &serde_json::Value) -> (result: Option<
    Vec<(&String, &serde_json::Value)>,
>)
    ensures
        match result {
            Some(entries) => json_contents(*value) == JsonValue::Object(entries_view(entries@))
                && entry_keys_distinct(entries@),
            None => !(json_contents(*value) is Object),
        },
{
    match value.as_object() {
        Some(map) => Some(map.iter().collect()),
        None => None,
    }
}

/// The field at `i` is what the object of the fields holds under its key.
proof fn lemma_entry_is_held(entries: Seq<(&String, &serde_json::Value)>, i: int)
    requires
        0 <= i < entries.len(),
        entry_keys_distinct(entries),
    ensures
        entries_view(entries).dom().finite(),
        entries_view(entries).dom().contains(entries[i].0@),
        entries_view(entries)[entries[i].0@] == json_contents(*entries[i].1),
    decreases entries.len(),
{
    let front = entries.drop_last();
    assert(entries_view(entries) == entries_view(front).insert(
        entries.last().0@,
        json_contents(*entries.last().1),
    ));
    lemma_entries_finite(front);
    if i < entries.len() - 1 {
        assert(front[i] == entries[i]);
        assert(entry_keys_distinct(front)) by {
            assert forall|a: int, b: int| 0 <= a < b < front.len() implies (#[trigger] front[a]).0@
                != (#[trigger] front[b]).0@ by {
                assert(front[a] == entries[a]);
                assert(front[b] == entries[b]);
            }
        }
        lemma_entry_is_held(front, i);
    }
}

/// The object of a list of fields has finitely many keys, each from a field.
proof fn lemma_entries_finite(entries: Seq<(&String, &serde_json::Value)>)
    ensures
        entries_view(entries).dom().finite(),
        forall|k: Seq<char>| #[trigger]
            entries_view(entries).dom().contains(k) ==> exists|i: int|
                0 <= i < entries.len() && (#[trigger] entries[i]).0@ == k,
    decreases entries.len(),
{
    if entries.len() == 0 {
        assert(entries_view(entries) == Map::<Seq<char>, JsonValue>::empty());
    } else {
        let front = entries.drop_last();
        lemma_entries_finite(front);
        assert(entries_view(entries) == entries_view(front).insert(
            entries.last().0@,
            json_contents(*entries.last().1),
        ));
        assert forall|k: Seq<char>| #[trigger]
            entries_view(entries).dom().contains(k) implies exists|i: int|
            0 <= i < entries.len() && (#[trigger] entries[i]).0@ == k by {
            if k == entries.last().0@ {
                assert(entries[entries.len() - 1].0@ == k);
            } else {
                let i = choose|i: int| 0 <= i < front.len() && (#[trigger] front[i]).0@ == k;
                assert(entries[i] == front[i]);
            }
        }
    }
}

/// The document that a `serde_json::Value` holds, where all its numbers are
/// integers.
pub(crate) fn from_json(value: &serde_json::Value) -> (result: Option<Document>)
    ensures
        match result {
            Some(doc) => doc@ == json_contents(*value),
            None => !json_contents(*value).integral(),
        },
    decreases json_contents(*value),
{
    if json_is_null(value) {
        return Some(Document::Null);
    }
    if let Some(b) = json_as_bool(value) {
        return Some(Document::Bool(b));
    }
    if let Some(n) = json_as_i64(value) {
        return Some(Document::Int(n));
    }
    if let Some(n) = json_as_u64(value) {
        return Some(Document::UInt(n));
    }
    if let Some(s) = json_as_str(value) {
        return Some(Document::Text(s.to_owned()));
    }
    if let Some(items) = json_as_array(value) {
        let mut docs: Vec<Document> = Vec::new();
        let mut i: usize = 0;
        while i < items.len()
            invariant
                i <= items.len(),
                docs@.len() == i,
                forall|k: int| 0 <= k < i ==> (#[trigger] docs@[k])@ == json_contents(items@[k]),
                json_contents(*value) == JsonValue::Array(contents_of(items@)),
            decreases items.len() - i,
        {
            proof {
                let held = contents_of(items@);
                assert(held[i as int] == json_contents(items@[i as int]));
                let whole = json_contents(*value);
                assert(whole->Array_0 == held);
                assert(decreases_to!(whole => whole->Array_0[i as int]));
            }
            match from_json(&items[i]) {
                Some(doc) => {
                    docs.push(doc);
                },
                None => {
                    proof {
                        lemma_array_integral(contents_of(items@));
                    }
                    return None;
                },
            }
            i = i + 1;
        }
        proof {
            lemma_items_view(docs@);
            assert(items_view(docs@) =~= contents_of(items@));
        }
        return Some(Document::Array(docs));
    }
    if let Some(entries) = json_entries(value) {
        let mut fields: Vec<(String, Document)> = Vec::new();
        let mut i: usize = 0;
        while i < entries.len()
            invariant
                i <= entries.len(),
                fields@.len() == i,
                fields_view(fields@) == entries_view(entries@.take(i as int)),
                json_contents(*value) == JsonValue::Object(entries_view(entries@)),
                entry_keys_distinct(entries@),
            decreases entries.len() - i,
        {
            proof {
                let held = entries_view(entries@);
                lemma_entry_is_held(entries@, i as int);
                let whole = json_contents(*value);
                assert(whole->Object_0 == held);
                assert(decreases_to!(whole => whole->Object_0[entries@[i as int].0@]));
            }
            match from_json(entries[i].1) {
                Some(doc) => {
                    proof {
                        assert(entries@.take(i + 1).drop_last() == entries@.take(i as int));
                        assert(fields@.push((*entries@[i as int].0, doc)).drop_last() == fields@);
                    }
                    fields.push((entries[i].0.clone(), doc));
                },
                None => {
                    proof {
                        lemma_object_integral(entries_view(entries@));
                    }
                    return None;
                },
            }
            i = i + 1;
        }
        proof {
            assert(entries@.take(entries.len() as int) == entries@);
        }
        return Some(Document::Object(fields));
    }
    None
}

/// Builds the `serde_json::Value` that holds what the document stands for.
pub(crate) fn to_json(doc: &Document) -> (value: serde_json::Value)
    ensures
        json_contents(value) == doc@,
    decreases doc,
{
    match doc {
        Document::Null => json_null(),
        Document::Bool(b) => json_bool(*b),
        Document::Int(n) => json_int(*n),
        Document::UInt(n) => json_uint(*n),
        Document::Text(s) => json_string(s.as_str()),
        Document::Array(items) => {
            let mut values: Vec<serde_json::Value> = Vec::new();
            let mut i: usize = 0;
            while i < items.len()
                invariant
                    i <= items.len(),
                    values@.len() == i,
                    contents_of(values@) == items_view(items@.take(i as int)),
                    decreases_to!(doc => items),
                decreases items.len() - i,
            {
                let value = to_json(&items[i]);
                proof {
                    assert(items@.take(i + 1).drop_last() == items@.take(i as int));
                    assert(contents_of(values@.push(value)) == contents_of(values@).push(
                        json_contents(value),
                    ));
                }
                values.push(value);
                i = i + 1;
            }
            proof {
                assert(items@.take(items.len() as int) == items@);
            }
            json_array(values)
        },
        Document::Object(fields) => {
            let mut object = json_empty_object();
            let mut i: usize = 0;
            while i < fields.len()
                invariant
                    i <= fields.len(),
                    json_contents(object) == JsonValue::Object(
                        fields_view(fields@.take(i as int)),
                    ),
                    decreases_to!(doc => fields),
                decreases fields.len() - i,
            {
                let value = to_json(&fields[i].1);
                proof {
                    assert(fields@.take(i + 1).drop_last() == fields@.take(i as int));
                }
                json_insert(&mut object, fields[i].0.clone(), value);
                i = i + 1;
            }
            proof {
                assert(fields@.take(fields.len() as int) == fields@);
            }
            object
        },
    }
}

/// The document that a text holds: what `serde_json` reads from it, where that
/// has integers for numbers.
pub open spec fn parsed_document(text: Seq<char>) -> Option<JsonValue> {
    match parsed_json(text) {
        Some(value) => if value.integral() {
            Some(value)
        } else {
            None
        },
        None => None,
    }
}

/// Reads a JSON text.
pub fn parse_document(text: &str) -> (result: Option<Document>)
    ensures
        match result {
            Some(doc) => parsed_document(text@) == Some(doc@),
            None => parsed_document(text@) is None,
        },
{
    match parse_json(text) {
        Some(value) => {
            let result = from_json(&value);
            proof {
                if result is Some {
                    lemma_document_integral(result->Some_0);
                }
            }
            result
        },
        None => None,
    }
}

/// Writes the document as JSON text, as `serde_json` does.
pub fn serialize_document(doc: &Document) -> (text: String)
    ensures
        text@ == json_text(doc@),
{
    let value = to_json(doc);
    serialized_text(&value).unwrap()
}

} // verus!
