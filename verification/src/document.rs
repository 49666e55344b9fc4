//! The receipt document: a JSON tree, and the mathematical value it stands for.

use vstd::prelude::*;

verus! {

/// The value of a JSON document. An object is a map: it has no field order and
/// no key occurs twice. A number that is no integer is kept as its text.
pub enum JsonValue {
    Null,
    Bool(bool),
    Number(int),
    Real(Seq<char>),
    Text(Seq<char>),
    Array(Seq<JsonValue>),
    Object(Map<Seq<char>, JsonValue>),
}

/// The largest integer that every JSON reader holds exactly: 2^53 - 1.
pub const MAX_SAFE_INTEGER: u64 = 9_007_199_254_740_991;

impl JsonValue {
    /// Every number in the value, at any depth, is an integer.
    pub open spec fn integral(self) -> bool
        decreases self,
    {
        match self {
            JsonValue::Real(_) => false,
            JsonValue::Array(items) => forall|i: int|
                0 <= i < items.len() ==> (#[trigger] items[i]).integral(),
            JsonValue::Object(fields) => forall|k: Seq<char>|
                fields.dom().contains(k) ==> (#[trigger] fields[k]).integral(),
            _ => true,
        }
    }

    /// Every integer in the value, at any depth, lies within
    /// `-MAX_SAFE_INTEGER ..= MAX_SAFE_INTEGER`.
    pub open spec fn canonicalizable(self) -> bool
        decreases self,
    {
        match self {
            JsonValue::Number(n) => -(MAX_SAFE_INTEGER as int) <= n <= MAX_SAFE_INTEGER as int,
            JsonValue::Array(items) => forall|i: int|
                0 <= i < items.len() ==> (#[trigger] items[i]).canonicalizable(),
            JsonValue::Object(fields) => forall|k: Seq<char>|
                fields.dom().contains(k) ==> (#[trigger] fields[k]).canonicalizable(),
            _ => true,
        }
    }
}

/// A JSON document as the program holds it. The fields of an object are kept in
/// the order in which they were written; where a key occurs twice, the later
/// field counts. Its numbers are integers.
#[derive(Debug, PartialEq, Eq)]
pub enum Document {
    Null,
    Bool(bool),
    Int(i64),
    UInt(u64),
    Text(String),
    Array(Vec<Document>),
    Object(Vec<(String, Document)>),
}

/// The values of the documents in a list, in order.
pub open spec fn items_view(items: Seq<Document>) -> Seq<JsonValue>
    decreases items,
{
    if items.len() == 0 {
        Seq::empty()
    } else {
        items_view(items.drop_last()).push(items.last().view())
    }
}

/// The map that a list of fields stands for: a later field replaces an earlier
/// one of the same key.
pub open spec fn fields_view(fields: Seq<(String, Document)>) -> Map<Seq<char>, JsonValue>
    decreases fields,
{
    if fields.len() == 0 {
        Map::empty()
    } else {
        fields_view(fields.drop_last()).insert(fields.last().0@, fields.last().1.view())
    }
}

impl View for Document {
    type V = JsonValue;

    open spec fn view(&self) -> JsonValue
        decreases self,
    {
        match self {
            Document::Null => JsonValue::Null,
            Document::Bool(b) => JsonValue::Bool(*b),
            Document::Int(n) => JsonValue::Number(*n as int),
            Document::UInt(n) => JsonValue::Number(*n as int),
            Document::Text(s) => JsonValue::Text(s@),
            Document::Array(items) => JsonValue::Array(items_view(items@)),
            Document::Object(fields) => JsonValue::Object(fields_view(fields@)),
        }
    }
}


/// No later field of the list has the key of field `i`.
pub open spec fn is_last_of_its_key(fields: Seq<(String, Document)>, i: int) -> bool {
    forall|j: int| i < j < fields.len() ==> (#[trigger] fields[j]).0@ != fields[i].0@
}

/// No key occurs twice in the list.
pub open spec fn keys_distinct(fields: Seq<(String, Document)>) -> bool {
    forall|i: int, j: int|
        0 <= i < j < fields.len() ==> (#[trigger] fields[i]).0@ != (#[trigger] fields[j]).0@
}

/// The field that is the last of its key is the one that the object holds
/// under that key.
pub proof fn lemma_last_field_counts(fields: Seq<(String, Document)>, i: int)
    requires
        0 <= i < fields.len(),
        is_last_of_its_key(fields, i),
    ensures
        fields_view(fields).dom().contains(fields[i].0@),
        fields_view(fields)[fields[i].0@] == fields[i].1@,
    decreases fields.len(),
{
    let front = fields.drop_last();
    assert(fields_view(fields) == fields_view(front).insert(fields.last().0@, fields.last().1@));
    if i < fields.len() - 1 {
        assert forall|j: int| i < j < front.len() implies (#[trigger] front[j]).0@
            != front[i].0@ by {
            assert(front[j] == fields[j]);
        }
        lemma_last_field_counts(front, i);
    }
}

/// Every key of the object comes from a field that is the last of its key.
pub proof fn lemma_key_has_last_field(fields: Seq<(String, Document)>, key: Seq<char>) -> (i: int)
    requires
        fields_view(fields).dom().contains(key),
    ensures
        0 <= i < fields.len(),
        fields[i].0@ == key,
        is_last_of_its_key(fields, i),
    decreases fields.len(),
{
    if fields.len() == 0 {
        assert(fields_view(fields) == Map::<Seq<char>, JsonValue>::empty());
        0
    } else if fields.last().0@ == key {
        fields.len() - 1
    } else {
        let front = fields.drop_last();
        assert(fields_view(fields) == fields_view(front).insert(
            fields.last().0@,
            fields.last().1@,
        ));
        let i = lemma_key_has_last_field(front, key);
        assert forall|j: int| i < j < fields.len() implies (#[trigger] fields[j]).0@
            != fields[i].0@ by {
            if j < front.len() {
                assert(front[j] == fields[j]);
            }
        }
        i
    }
}

/// Some field of the list has this key and stands for this value.
pub open spec fn holds_field(
    fields: Seq<(String, Document)>,
    key: Seq<char>,
    value: JsonValue,
) -> bool {
    exists|j: int| 0 <= j < fields.len() && (#[trigger] fields[j]).0@ == key && fields[j].1@ == value
}

/// Two field lists without a repeated key that hold the same fields, in
/// whatever order, stand for the same object. Fields are the same when their
/// keys read the same and their values stand for the same, so the order of
/// fields further down does not count either.
pub proof fn lemma_field_order_is_immaterial(
    first: Seq<(String, Document)>,
    second: Seq<(String, Document)>,
)
    requires
        keys_distinct(first),
        keys_distinct(second),
        forall|i: int|
            0 <= i < first.len() ==> holds_field(second, (#[trigger] first[i]).0@, first[i].1@),
        forall|i: int|
            0 <= i < second.len() ==> holds_field(first, (#[trigger] second[i]).0@, second[i].1@),
    ensures
        fields_view(first) == fields_view(second),
{
    let a = fields_view(first);
    let b = fields_view(second);
    assert forall|key: Seq<char>| #[trigger] a.dom().contains(key) implies b.dom().contains(key)
        && a[key] == b[key] by {
        let i = lemma_key_has_last_field(first, key);
        lemma_last_field_counts(first, i);
        assert(holds_field(second, first[i].0@, first[i].1@));
        let j = choose|j: int|
            0 <= j < second.len() && (#[trigger] second[j]).0@ == first[i].0@ && second[j].1@
                == first[i].1@;
        lemma_last_field_counts(second, j);
    }
    assert forall|key: Seq<char>| #[trigger] b.dom().contains(key) implies a.dom().contains(
        key,
    ) by {
        let j = lemma_key_has_last_field(second, key);
        assert(holds_field(first, second[j].0@, second[j].1@));
        let i = choose|i: int|
            0 <= i < first.len() && (#[trigger] first[i]).0@ == second[j].0@ && first[i].1@
                == second[j].1@;
        lemma_last_field_counts(first, i);
    }
    assert(a.dom() =~= b.dom());
    assert(a =~= b);
}

/// An array is canonicalizable exactly when each of its items is.
pub proof fn lemma_array_canonicalizable(items: Seq<JsonValue>)
    ensures
        JsonValue::Array(items).canonicalizable() <==> forall|i: int|
            0 <= i < items.len() ==> (#[trigger] items[i]).canonicalizable(),
{
    let whole = JsonValue::Array(items);
    assert(whole->Array_0 == items);
    if whole.canonicalizable() {
        assert(forall|i: int| 0 <= i < items.len() ==> (#[trigger] items[i]).canonicalizable());
    }
}

/// An object is canonicalizable exactly when the value under each key is.
pub proof fn lemma_object_canonicalizable(fields: Map<Seq<char>, JsonValue>)
    ensures
        JsonValue::Object(fields).canonicalizable() <==> forall|k: Seq<char>|
            fields.dom().contains(k) ==> (#[trigger] fields[k]).canonicalizable(),
{
    let whole = JsonValue::Object(fields);
    assert(whole->Object_0 == fields);
    if whole.canonicalizable() {
        assert(forall|k: Seq<char>|
            fields.dom().contains(k) ==> (#[trigger] fields[k]).canonicalizable());
    }
}

/// An array is integral exactly when each of its items is.
pub proof fn lemma_array_integral(items: Seq<JsonValue>)
    ensures
        JsonValue::Array(items).integral() <==> forall|i: int|
            0 <= i < items.len() ==> (#[trigger] items[i]).integral(),
{
    let whole = JsonValue::Array(items);
    assert(whole->Array_0 == items);
    if whole.integral() {
        assert(forall|i: int| 0 <= i < items.len() ==> (#[trigger] items[i]).integral());
    }
}

/// An object is integral exactly when the value under each key is.
pub proof fn lemma_object_integral(fields: Map<Seq<char>, JsonValue>)
    ensures
        JsonValue::Object(fields).integral() <==> forall|k: Seq<char>|
            fields.dom().contains(k) ==> (#[trigger] fields[k]).integral(),
{
    let whole = JsonValue::Object(fields);
    assert(whole->Object_0 == fields);
    if whole.integral() {
        assert(forall|k: Seq<char>| fields.dom().contains(k) ==> (#[trigger] fields[k]).integral());
    }
}

/// The items of a list, one by one.
pub proof fn lemma_items_view(items: Seq<Document>)
    ensures
        items_view(items).len() == items.len(),
        forall|i: int| 0 <= i < items.len() ==> (#[trigger] items_view(items)[i]) == items[i]@,
    decreases items.len(),
{
    if items.len() == 0 {
        assert(items_view(items) == Seq::<JsonValue>::empty());
    } else {
        lemma_items_view(items.drop_last());
        assert(items_view(items) == items_view(items.drop_last()).push(items.last()@));
        assert forall|i: int| 0 <= i < items.len() implies (#[trigger] items_view(items)[i])
            == items[i]@ by {
            if i < items.len() - 1 {
                assert(items.drop_last()[i] == items[i]);
            }
        }
    }
}

impl Document {
    /// Whether every integer that the document holds, at any depth, lies within
    /// the range that a JSON reader keeps exactly. A field that a later field of
    /// the same key replaces is not part of what the document holds.
    pub fn is_canonicalizable(&self) -> (ok: bool)
        ensures
            ok == self@.canonicalizable(),
        decreases self,
    {
        match self {
            Document::Null => true,
            Document::Bool(_) => true,
            Document::Int(n) => -9_007_199_254_740_991 <= *n && *n <= 9_007_199_254_740_991,
            Document::UInt(n) => *n <= MAX_SAFE_INTEGER,
            Document::Text(_) => true,
            Document::Array(items) => {
                let mut i: usize = 0;
                while i < items.len()
                    invariant
                        i <= items.len(),
                        forall|k: int| 0 <= k < i ==> (#[trigger] items@[k])@.canonicalizable(),
                        self@ == JsonValue::Array(items_view(items@)),
                        decreases_to!(self => items),
                    decreases items.len() - i,
                {
                    if !items[i].is_canonicalizable() {
                        proof {
                            lemma_items_view(items@);
                            lemma_array_canonicalizable(items_view(items@));
                            assert(!items_view(items@)[i as int].canonicalizable());
                        }
                        return false;
                    }
                    i = i + 1;
                }
                proof {
                    lemma_items_view(items@);
                    lemma_array_canonicalizable(items_view(items@));
                }
                true
            },
            Document::Object(fields) => {
                let mut i: usize = 0;
                while i < fields.len()
                    invariant
                        i <= fields.len(),
                        forall|k: int|
                            0 <= k < i && is_last_of_its_key(fields@, k) ==> (
                            #[trigger] fields@[k]).1@.canonicalizable(),
                        self@ == JsonValue::Object(fields_view(fields@)),
                        decreases_to!(self => fields),
                    decreases fields.len() - i,
                {
                    if !is_shadowed(fields, i) && !fields[i].1.is_canonicalizable() {
                        proof {
                            lemma_last_field_counts(fields@, i as int);
                            lemma_object_canonicalizable(fields_view(fields@));
                            assert(!fields_view(fields@)[fields@[i as int].0@].canonicalizable());
                        }
                        return false;
                    }
                    i = i + 1;
                }
                proof {
                    lemma_object_canonicalizable(fields_view(fields@));
                    assert forall|key: Seq<char>|
                        fields_view(fields@).dom().contains(key) implies (
                    #[trigger] fields_view(fields@)[key]).canonicalizable() by {
                        let k = lemma_key_has_last_field(fields@, key);
                        lemma_last_field_counts(fields@, k);
                    }
                }
                true
            },
        }
    }
}

/// Whether a later field of the list has the key of field `i`.
fn is_shadowed(fields: &Vec<(String, Document)>, i: usize) -> (shadowed: bool)
    requires
        i < fields.len(),
    ensures
        shadowed == !is_last_of_its_key(fields@, i as int),
{
    let mut j: usize = i + 1;
    while j < fields.len()
        invariant
            i < j <= fields.len(),
            forall|k: int| i < k < j ==> (#[trigger] fields@[k]).0@ != fields@[i as int].0@,
        decreases fields.len() - j,
    {
        if fields[j].0 == fields[i].0 {
            return true;
        }
        j = j + 1;
    }
    false
}


/// What a document holds has integers for numbers.
pub proof fn lemma_document_integral(doc: Document)
    ensures
        doc@.integral(),
    decreases doc,
{
    match doc {
        Document::Array(items) => {
            lemma_items_view(items@);
            lemma_array_integral(items_view(items@));
            assert forall|i: int| 0 <= i < items@.len() implies (#[trigger] items_view(
                items@,
            )[i]).integral() by {
                lemma_document_integral(items@[i]);
            }
        },
        Document::Object(fields) => {
            lemma_object_integral(fields_view(fields@));
            assert forall|key: Seq<char>|
                fields_view(fields@).dom().contains(key) implies (#[trigger] fields_view(
                fields@,
            )[key]).integral() by {
                let i = lemma_key_has_last_field(fields@, key);
                lemma_last_field_counts(fields@, i);
                lemma_document_integral(fields@[i].1);
            }
        },
        _ => {},
    }
}

/// Appending a field puts its value under its key.
pub proof fn lemma_fields_view_push(fields: Seq<(String, Document)>, field: (String, Document))
    ensures
        fields_view(fields.push(field)) == fields_view(fields).insert(field.0@, field.1@),
{
    assert(fields.push(field).drop_last() == fields);
}

/// Appends the field `key: value` to the fields of an object under construction.
pub fn push_field(fields: &mut Vec<(String, Document)>, key: &str, value: Document)
    ensures
        final(fields)@ == old(fields)@.push((final(fields)@.last().0, value)),
        final(fields)@.last().0@ == key@,
        fields_view(final(fields)@) == fields_view(old(fields)@).insert(key@, value@),
{
    let owned = key.to_owned();
    proof {
        lemma_fields_view_push(fields@, (owned, value));
    }
    fields.push((owned, value));
}

impl Document {
    /// The value under `key`, where the document is an object that has the key.
    pub fn get(&self, key: &str) -> (found: Option<&Document>)
        ensures
            match found {
                Some(value) => self@ is Object && self@->Object_0.dom().contains(key@)
                    && self@->Object_0[key@] == value@,
                None => !(self@ is Object && self@->Object_0.dom().contains(key@)),
            },
    {
        match self {
            Document::Object(fields) => {
                let wanted = key.to_owned();
                let mut i: usize = fields.len();
                while i > 0
                    invariant
                        i <= fields.len(),
                        wanted@ == key@,
                        self@ == JsonValue::Object(fields_view(fields@)),
                        forall|k: int| i <= k < fields.len() ==> (#[trigger] fields@[k]).0@ != key@,
                    decreases i,
                {
                    i = i - 1;
                    if fields[i].0 == wanted {
                        proof {
                            lemma_last_field_counts(fields@, i as int);
                        }
                        return Some(&fields[i].1);
                    }
                }
                proof {
                    if fields_view(fields@).dom().contains(key@) {
                        lemma_key_has_last_field(fields@, key@);
                    }
                }
                None
            },
            _ => None,
        }
    }

    /// The string, where the document is one.
    pub fn as_text(&self) -> (text: Option<&String>)
        ensures
            match text {
                Some(s) => self@ == JsonValue::Text(s@),
                None => !(self@ is Text),
            },
    {
        match self {
            Document::Text(s) => Some(s),
            _ => None,
        }
    }

    /// The items, where the document is an array.
    pub fn as_array(&self) -> (items: Option<&Vec<Document>>)
        ensures
            match items {
                Some(list) => self@ == JsonValue::Array(items_view(list@)),
                None => !(self@ is Array),
            },
    {
        match self {
            Document::Array(list) => Some(list),
            _ => None,
        }
    }
}

} // verus!
