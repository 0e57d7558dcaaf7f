//! JSON values as the library holds them, their model, and lookups in objects.

use vstd::prelude::*;

verus! {

/// The mathematical model of a JSON value: text as character sequences, numbers as integers.
pub enum Json {
    Null,
    Bool(bool),
    Int(int),
    Str(Seq<char>),
    Array(Seq<Json>),
    Object(Seq<(Seq<char>, Json)>),
}

/// A JSON value held by the library. Numbers are 64-bit signed integers, so JSON text with
/// other numbers has no value here; an object keeps its entries in order, and a lookup finds
/// the first entry with a given key.
#[derive(Debug, PartialEq)]
pub enum JsonValue {
    Null,
    Bool(bool),
    Int(i64),
    Str(String),
    Array(Vec<JsonValue>),
    Object(Vec<(String, JsonValue)>),
}

impl View for JsonValue {
    type V = Json;

    open spec fn view(&self) -> Json
        decreases self,
    {
        match self {
            JsonValue::Null => Json::Null,
            JsonValue::Bool(b) => Json::Bool(*b),
            JsonValue::Int(n) => Json::Int(*n as int),
            JsonValue::Str(s) => Json::Str(s@),
            JsonValue::Array(items) => Json::Array(items_view(items@)),
            JsonValue::Object(entries) => Json::Object(entries_view(entries@)),
        }
    }
}

/// The model of a sequence of array items.
pub open spec fn items_view(s: Seq<JsonValue>) -> Seq<Json>
    decreases s,
{
    if s.len() == 0 {
        Seq::empty()
    } else {
        seq![s[0].view()] + items_view(s.drop_first())
    }
}

/// The model of a sequence of object entries.
pub open spec fn entries_view(s: Seq<(String, JsonValue)>) -> Seq<(Seq<char>, Json)>
    decreases s,
{
    if s.len() == 0 {
        Seq::empty()
    } else {
        seq![(s[0].0@, s[0].1.view())] + entries_view(s.drop_first())
    }
}

pub proof fn lemma_items_view_index(s: Seq<JsonValue>)
    ensures
        items_view(s).len() == s.len(),
        forall|i: int| 0 <= i < s.len() ==> #[trigger] items_view(s)[i] == s[i]@,
    decreases s.len(),
{
    if s.len() > 0 {
        lemma_items_view_index(s.drop_first());
        assert(items_view(s) == seq![s[0].view()] + items_view(s.drop_first()));
        assert forall|i: int| 0 <= i < s.len() implies #[trigger] items_view(s)[i] == s[i]@ by {
            if i > 0 {
                assert(items_view(s)[i] == items_view(s.drop_first())[i - 1]);
                assert(s.drop_first()[i - 1] == s[i]);
            }
        }
    }
}

pub proof fn lemma_entries_view_index(s: Seq<(String, JsonValue)>)
    ensures
        entries_view(s).len() == s.len(),
        forall|i: int| 0 <= i < s.len() ==> #[trigger] entries_view(s)[i] == (s[i].0@, s[i].1@),
    decreases s.len(),
{
    if s.len() > 0 {
        lemma_entries_view_index(s.drop_first());
        assert(entries_view(s) == seq![(s[0].0@, s[0].1.view())] + entries_view(s.drop_first()));
        assert forall|i: int| 0 <= i < s.len() implies #[trigger] entries_view(s)[i] == (s[i].0@, s[i].1@) by {
            if i > 0 {
                assert(entries_view(s)[i] == entries_view(s.drop_first())[i - 1]);
                assert(s.drop_first()[i - 1] == s[i]);
            }
        }
    }
}

/// The value of the first entry whose key is `key`, if any.
pub open spec fn field(s: Seq<(Seq<char>, Json)>, key: Seq<char>) -> Option<Json>
    decreases s.len(),
{
    if s.len() == 0 {
        None
    } else if s[0].0 == key {
        Some(s[0].1)
    } else {
        field(s.drop_first(), key)
    }
}

/// The index of the first entry whose key is `key`.
pub open spec fn first_index(s: Seq<(Seq<char>, Json)>, key: Seq<char>, i: int) -> bool {
    &&& 0 <= i < s.len()
    &&& s[i].0 == key
    &&& forall|j: int| 0 <= j < i ==> s[j].0 != key
}

pub proof fn lemma_field_at(s: Seq<(Seq<char>, Json)>, key: Seq<char>, i: int)
    requires
        first_index(s, key, i),
    ensures
        field(s, key) == Some(s[i].1),
    decreases i,
{
    if i > 0 {
        lemma_field_at(s.drop_first(), key, i - 1);
    }
}

pub proof fn lemma_field_absent(s: Seq<(Seq<char>, Json)>, key: Seq<char>)
    requires
        forall|j: int| 0 <= j < s.len() ==> s[j].0 != key,
    ensures
        field(s, key) is None,
    decreases s.len(),
{
    if s.len() > 0 {
        lemma_field_absent(s.drop_first(), key);
    }
}

/// Taking out the first entry of one key leaves every other key's value as it was.
pub proof fn lemma_field_remove_other(s: Seq<(Seq<char>, Json)>, key: Seq<char>, i: int, other: Seq<char>)
    requires
        first_index(s, key, i),
        other != key,
    ensures
        field(s.remove(i), other) == field(s, other),
    decreases i,
{
    if i == 0 {
        assert(s.remove(0) =~= s.drop_first());
    } else {
        assert(s.remove(i)[0] == s[0]);
        assert(s.remove(i).drop_first() =~= s.drop_first().remove(i - 1));
        lemma_field_remove_other(s.drop_first(), key, i - 1, other);
    }
}

pub proof fn lemma_entries_view_remove(s: Seq<(String, JsonValue)>, i: int)
    requires
        0 <= i < s.len(),
    ensures
        entries_view(s.remove(i)) == entries_view(s).remove(i),
{
    lemma_entries_view_index(s);
    lemma_entries_view_index(s.remove(i));
    assert(entries_view(s.remove(i)) =~= entries_view(s).remove(i));
}

pub open spec fn first_index_raw(s: Seq<(String, JsonValue)>, key: Seq<char>, i: int) -> bool {
    &&& 0 <= i < s.len()
    &&& s[i].0@ == key
    &&& forall|j: int| 0 <= j < i ==> s[j].0@ != key
}

pub proof fn lemma_first_index_raw(s: Seq<(String, JsonValue)>, key: Seq<char>, i: int)
    requires
        first_index_raw(s, key, i),
    ensures
        first_index(entries_view(s), key, i),
        field(entries_view(s), key) == Some(s[i].1@),
{
    lemma_entries_view_index(s);
    assert forall|j: int| 0 <= j < i implies entries_view(s)[j].0 != key by {
        assert(entries_view(s)[j] == (s[j].0@, s[j].1@));
    }
    assert(entries_view(s)[i] == (s[i].0@, s[i].1@));
    lemma_field_at(entries_view(s), key, i);
}

pub proof fn lemma_absent_raw(s: Seq<(String, JsonValue)>, key: Seq<char>)
    requires
        forall|j: int| 0 <= j < s.len() ==> s[j].0@ != key,
    ensures
        field(entries_view(s), key) is None,
{
    lemma_entries_view_index(s);
    assert forall|j: int| 0 <= j < entries_view(s).len() implies entries_view(s)[j].0 != key by {
        assert(entries_view(s)[j] == (s[j].0@, s[j].1@));
    }
    lemma_field_absent(entries_view(s), key);
}

/// The index of the first entry of `entries` whose key is `key`.
pub fn find_field(entries: &Vec<(String, JsonValue)>, key: &String) -> (r: Option<usize>)
    ensures
        match r {
            Some(i) => first_index_raw(entries@, key@, i as int),
            None => forall|j: int| 0 <= j < entries@.len() ==> entries@[j].0@ != key@,
        },
{
    let mut i: usize = 0;
    while i < entries.len()
        invariant
            i <= entries@.len(),
            forall|j: int| 0 <= j < i ==> entries@[j].0@ != key@,
        decreases entries@.len() - i,
    {
        if entries[i].0 == *key {
            return Some(i);
        }
        i = i + 1;
    }
    None
}

/// Borrows the value of the first entry whose key is `key`.
pub fn get_field<'a>(entries: &'a Vec<(String, JsonValue)>, key: &String) -> (r: Option<&'a JsonValue>)
    ensures
        match r {
            Some(v) => field(entries_view(entries@), key@) == Some(v@),
            None => field(entries_view(entries@), key@) is None,
        },
{
    match find_field(entries, key) {
        Some(i) => {
            proof {
                lemma_first_index_raw(entries@, key@, i as int);
            }
            Some(&entries[i].1)
        },
        None => {
            proof {
                lemma_absent_raw(entries@, key@);
            }
            None
        },
    }
}

/// Removes the first entry whose key is `key` and hands its value back; the values of
/// all other keys stay as they were.
pub fn take_field(entries: &mut Vec<(String, JsonValue)>, key: &String) -> (r: Option<JsonValue>)
    ensures
        match r {
            Some(v) => field(entries_view(old(entries)@), key@) == Some(v@),
            None => field(entries_view(old(entries)@), key@) is None,
        },
        forall|other: Seq<char>|
            other != key@ ==> #[trigger] field(entries_view(final(entries)@), other) == field(
                entries_view(old(entries)@),
                other,
            ),
{
    match find_field(entries, key) {
        Some(i) => {
            let ghost before = entries@;
            let (_, v) = entries.remove(i);
            proof {
                lemma_first_index_raw(before, key@, i as int);
                lemma_entries_view_remove(before, i as int);
                assert forall|other: Seq<char>| other != key@ implies #[trigger] field(
                    entries_view(entries@),
                    other,
                ) == field(entries_view(before), other) by {
                    lemma_field_remove_other(entries_view(before), key@, i as int, other);
                }
            }
            Some(v)
        },
        None => {
            proof {
                lemma_absent_raw(entries@, key@);
            }
            None
        },
    }
}

/// An object entry with key `key`.
pub fn entry(key: &str, v: JsonValue) -> (r: (String, JsonValue))
    ensures
        r.0@ == key@,
        r.1 == v,
{
    (String::from_str(key), v)
}

/// The object with entries `e`, whose model is `want`.
pub(crate) fn object_of(e: Vec<(String, JsonValue)>, Ghost(want): Ghost<Seq<(Seq<char>, Json)>>) -> (r: JsonValue)
    requires
        e@.len() == want.len(),
        forall|i: int| 0 <= i < want.len() ==> (#[trigger] e@[i]).0@ == want[i].0 && e@[i].1@ == want[i].1,
    ensures
        r@ == Json::Object(want),
{
    proof {
        lemma_entries_view_index(e@);
        assert(entries_view(e@) =~= want);
    }
    JsonValue::Object(e)
}

/// A JSON string holding `s`.
pub fn json_str(s: &str) -> (r: JsonValue)
    ensures
        r@ == Json::Str(s@),
{
    JsonValue::Str(String::from_str(s))
}

} // verus!
