//! A JSON value model, with the lookups and updates that the settings
//! builder and the token-usage accounting use.

use vstd::prelude::*;
use crate::text::{str_eq, string_of};
use vstd::string::*;

verus! {

/// A JSON number: integers that fit in `i64`, larger unsigned integers, and
/// other numbers kept as the text JSON writes for them.
pub enum JsonNumber {
    Int(i64),
    UInt(u64),
    Float(String),
}

/// A JSON value. Objects keep their entries in order, each key at most once.
pub enum JsonValue {
    Null,
    Bool(bool),
    Number(JsonNumber),
    String(String),
    Array(Vec<JsonValue>),
    Object(Vec<(String, JsonValue)>),
}

/// The mathematical form of a JSON number.
pub enum NumberSpec {
    Int(i64),
    UInt(u64),
    Float(Seq<char>),
}

/// The mathematical form of a JSON value.
pub enum Json {
    Null,
    Bool(bool),
    Number(NumberSpec),
    Str(Seq<char>),
    Array(Seq<Json>),
    Object(Seq<(Seq<char>, Json)>),
}

impl View for JsonNumber {
    type V = NumberSpec;

    open spec fn view(&self) -> NumberSpec {
        match self {
            JsonNumber::Int(i) => NumberSpec::Int(*i),
            JsonNumber::UInt(u) => NumberSpec::UInt(*u),
            JsonNumber::Float(t) => NumberSpec::Float(t@),
        }
    }
}

/// The view of a JSON value.
pub open spec fn json_view(v: JsonValue) -> Json
    decreases v,
{
    match v {
        JsonValue::Null => Json::Null,
        JsonValue::Bool(b) => Json::Bool(b),
        JsonValue::Number(n) => Json::Number(n@),
        JsonValue::String(s) => Json::Str(s@),
        JsonValue::Array(items) => Json::Array(items_view(items@)),
        JsonValue::Object(entries) => Json::Object(entries_view(entries@)),
    }
}

/// The views of a run of array items.
pub open spec fn items_view(items: Seq<JsonValue>) -> Seq<Json>
    decreases items,
{
    if items.len() == 0 {
        Seq::empty()
    } else {
        items_view(items.drop_last()).push(json_view(items.last()))
    }
}

/// The views of a run of object entries.
pub open spec fn entries_view(entries: Seq<(String, JsonValue)>) -> Seq<(Seq<char>, Json)>
    decreases entries,
{
    if entries.len() == 0 {
        Seq::empty()
    } else {
        entries_view(entries.drop_last()).push(
            (entries.last().0@, json_view(entries.last().1)),
        )
    }
}

impl View for JsonValue {
    type V = Json;

    open spec fn view(&self) -> Json {
        json_view(*self)
    }
}

pub proof fn lemma_items_view(items: Seq<JsonValue>)
    ensures
        items_view(items).len() == items.len(),
        forall|i: int| 0 <= i < items.len() ==> #[trigger] items_view(items)[i] == json_view(items[i]),
    decreases items.len(),
{
    if items.len() > 0 {
        lemma_items_view(items.drop_last());
    }
}

pub proof fn lemma_entries_view(entries: Seq<(String, JsonValue)>)
    ensures
        entries_view(entries).len() == entries.len(),
        forall|i: int|
            0 <= i < entries.len() ==> #[trigger] entries_view(entries)[i] == (
                entries[i].0@,
                json_view(entries[i].1),
            ),
    decreases entries.len(),
{
    if entries.len() > 0 {
        lemma_entries_view(entries.drop_last());
    }
}

/// Index of the entry with key `key`, if any (the first one).
pub open spec fn find_key<V>(entries: Seq<(Seq<char>, V)>, key: Seq<char>) -> Option<int>
    decreases entries.len(),
{
    if entries.len() == 0 {
        None
    } else {
        match find_key(entries.drop_last(), key) {
            Some(i) => Some(i),
            None => if entries.last().0 == key {
                Some(entries.len() - 1)
            } else {
                None
            },
        }
    }
}

pub proof fn lemma_find_key<V>(entries: Seq<(Seq<char>, V)>, key: Seq<char>)
    ensures
        match find_key(entries, key) {
            Some(i) => 0 <= i < entries.len() && entries[i].0 == key && forall|j: int|
                0 <= j < i ==> #[trigger] entries[j].0 != key,
            None => forall|j: int| 0 <= j < entries.len() ==> #[trigger] entries[j].0 != key,
        },
    decreases entries.len(),
{
    if entries.len() > 0 {
        let d = entries.drop_last();
        lemma_find_key(d, key);
        match find_key(d, key) {
            Some(i) => {
                assert forall|j: int| 0 <= j < i implies #[trigger] entries[j].0 != key by {
                    assert(d[j] == entries[j]);
                }
                assert(d[i] == entries[i]);
            },
            None => {
                assert forall|j: int| 0 <= j < d.len() implies #[trigger] entries[j].0 != key by {
                    assert(d[j] == entries[j]);
                }
            },
        }
    }
}

pub proof fn lemma_find_key_push<V>(entries: Seq<(Seq<char>, V)>, x: (Seq<char>, V), key: Seq<char>)
    ensures
        find_key(entries.push(x), key) == match find_key(entries, key) {
            Some(i) => Some(i),
            None => if x.0 == key {
                Some(entries.len() as int)
            } else {
                None
            },
        },
{
    assert(entries.push(x).drop_last() =~= entries);
}

/// Two runs with the same keys find a key at the same place.
pub proof fn lemma_find_key_same_keys<A, B>(a: Seq<(Seq<char>, A)>, b: Seq<(Seq<char>, B)>, key: Seq<char>)
    requires
        a.len() == b.len(),
        forall|i: int| 0 <= i < a.len() ==> (#[trigger] a[i]).0 == b[i].0,
    ensures
        find_key(a, key) == find_key(b, key),
    decreases a.len(),
{
    if a.len() > 0 {
        let a1 = a.drop_last();
        let b1 = b.drop_last();
        assert forall|i: int| 0 <= i < a1.len() implies (#[trigger] a1[i]).0 == b1[i].0 by {
            assert(a1[i] == a[i]);
            assert(b1[i] == b[i]);
        }
        lemma_find_key_same_keys(a1, b1, key);
        assert(a[a.len() - 1].0 == b[b.len() - 1].0);
    }
}

/// Reading back after storing: the stored value under the key written,
/// the old value under any other key.
pub proof fn lemma_entries_get_set<V>(entries: Seq<(Seq<char>, V)>, key: Seq<char>, value: V, k2: Seq<char>)
    ensures
        entries_get(entries_set(entries, key, value), k2) == (if k2 == key {
            Some(value)
        } else {
            entries_get(entries, k2)
        }),
{
    lemma_find_key(entries, key);
    lemma_find_key(entries, k2);
    match find_key(entries, key) {
        Some(i) => {
            let s2 = entries.update(i, (key, value));
            assert forall|j: int| 0 <= j < s2.len() implies (#[trigger] s2[j]).0 == entries[j].0 by {}
            lemma_find_key_same_keys(s2, entries, k2);
        },
        None => {
            lemma_find_key_push(entries, (key, value), k2);
        },
    }
}

/// The value stored under `key` in a run of keyed entries.
pub open spec fn entries_get<V>(entries: Seq<(Seq<char>, V)>, key: Seq<char>) -> Option<V> {
    match find_key(entries, key) {
        Some(i) => Some(entries[i].1),
        None => None,
    }
}

/// The entries after storing `value` under `key`: an existing key keeps its
/// place, a new key goes last.
pub open spec fn entries_set<V>(entries: Seq<(Seq<char>, V)>, key: Seq<char>, value: V) -> Seq<
    (Seq<char>, V),
> {
    match find_key(entries, key) {
        Some(i) => entries.update(i, (key, value)),
        None => entries.push((key, value)),
    }
}

/// `Value::get` with a string key: the member of an object, else nothing.
pub open spec fn json_get(v: Json, key: Seq<char>) -> Option<Json> {
    match v {
        Json::Object(entries) => entries_get(entries, key),
        _ => None,
    }
}

/// Can `v[key] = x` be done? Objects and `null` (which becomes an object).
pub open spec fn json_settable(v: Json) -> bool {
    v is Object || v is Null
}

/// The value after `v[key] = value`.
pub open spec fn json_set(v: Json, key: Seq<char>, value: Json) -> Json {
    match v {
        Json::Object(entries) => Json::Object(entries_set(entries, key, value)),
        _ => Json::Object(seq![(key, value)]),
    }
}

/// `Value::as_i64`.
pub open spec fn json_as_i64(v: Json) -> Option<i64> {
    match v {
        Json::Number(NumberSpec::Int(i)) => Some(i),
        _ => None,
    }
}

/// `Value::as_str`.
pub open spec fn json_as_str(v: Json) -> Option<Seq<char>> {
    match v {
        Json::Str(s) => Some(s),
        _ => None,
    }
}

/// A number from an `i64`.
pub open spec fn json_int(i: int) -> Json {
    Json::Number(NumberSpec::Int(i as i64))
}

pub proof fn lemma_entries_view_push(entries: Seq<(String, JsonValue)>, e: (String, JsonValue))
    ensures
        entries_view(entries.push(e)) == entries_view(entries).push((e.0@, json_view(e.1))),
{
    assert(entries.push(e).drop_last() =~= entries);
}

pub proof fn lemma_items_view_push(items: Seq<JsonValue>, e: JsonValue)
    ensures
        items_view(items.push(e)) == items_view(items).push(json_view(e)),
{
    assert(items.push(e).drop_last() =~= items);
}

pub proof fn lemma_entries_view_update(entries: Seq<(String, JsonValue)>, i: int, e: (String, JsonValue))
    requires
        0 <= i < entries.len(),
    ensures
        entries_view(entries.update(i, e)) == entries_view(entries).update(i, (e.0@, json_view(e.1))),
{
    lemma_entries_view(entries);
    lemma_entries_view(entries.update(i, e));
    assert(entries_view(entries.update(i, e)) =~= entries_view(entries).update(i, (e.0@, json_view(e.1))));
}

/// Index of the first entry whose key is `key`.
pub fn find_entry(entries: &Vec<(String, JsonValue)>, key: &str) -> (r: Option<usize>)
    ensures
        match r {
            Some(i) => find_key(entries_view(entries@), key@) == Some(i as int) && i < entries@.len()
                && entries_view(entries@)[i as int] == (entries@[i as int].0@, json_view(entries@[i as int].1)),
            None => find_key(entries_view(entries@), key@) is None,
        },
{
    proof {
        lemma_entries_view(entries@);
        lemma_find_key(entries_view(entries@), key@);
    }
    let ghost ev = entries_view(entries@);
    let mut i: usize = 0;
    while i < entries.len()
        invariant
            i <= entries@.len(),
            ev == entries_view(entries@),
            ev.len() == entries@.len(),
            forall|k: int| 0 <= k < entries@.len() ==> #[trigger] ev[k] == (entries@[k].0@, json_view(entries@[k].1)),
            forall|k: int| 0 <= k < i ==> #[trigger] ev[k].0 != key@,
        decreases entries@.len() - i,
    {
        if str_eq(entries[i].0.as_str(), key) {
            proof {
                lemma_find_key(ev, key@);
                match find_key(ev, key@) {
                    Some(j) => {
                        if j > i {
                            assert(ev[i as int].0 == key@);
                        }
                    },
                    None => {
                        assert(ev[i as int].0 == key@);
                    },
                }
            }
            return Some(i);
        }
        i = i + 1;
    }
    proof {
        lemma_find_key(ev, key@);
        match find_key(ev, key@) {
            Some(j) => {
                assert(ev[j].0 != key@);
            },
            None => {},
        }
    }
    None
}

/// A copy of a JSON value.
pub fn json_clone(v: &JsonValue) -> (r: JsonValue)
    ensures
        r@ == v@,
    decreases v,
{
    match v {
        JsonValue::Null => JsonValue::Null,
        JsonValue::Bool(b) => JsonValue::Bool(*b),
        JsonValue::Number(n) => JsonValue::Number(
            match n {
                JsonNumber::Int(i) => JsonNumber::Int(*i),
                JsonNumber::UInt(u) => JsonNumber::UInt(*u),
                JsonNumber::Float(t) => JsonNumber::Float(t.clone()),
            },
        ),
        JsonValue::String(s) => JsonValue::String(s.clone()),
        JsonValue::Array(items) => {
            let mut out: Vec<JsonValue> = Vec::new();
            let mut i: usize = 0;
            while i < items.len()
                invariant
                    i <= items@.len(),
                    *v == JsonValue::Array(*items),
                    items_view(out@) == items_view(items@.take(i as int)),
                decreases items@.len() - i,
            {
                proof {
                    assert(decreases_to!(*items => items@));
                    assert(decreases_to!(items@ => items@[i as int]));
                    assert(decreases_to!(*v => (*v)->Array_0));
                    assert(decreases_to!(*v => items@[i as int]));
                }
                let c = json_clone(&items[i]);
                proof {
                    lemma_items_view_push(out@, c);
                    lemma_items_view_push(items@.take(i as int), items@[i as int]);
                    assert(items@.take(i as int).push(items@[i as int]) =~= items@.take(i + 1));
                }
                out.push(c);
                i = i + 1;
            }
            assert(items@.take(items@.len() as int) =~= items@);
            JsonValue::Array(out)
        },
        JsonValue::Object(entries) => {
            let mut out: Vec<(String, JsonValue)> = Vec::new();
            let mut i: usize = 0;
            while i < entries.len()
                invariant
                    i <= entries@.len(),
                    *v == JsonValue::Object(*entries),
                    entries_view(out@) == entries_view(entries@.take(i as int)),
                decreases entries@.len() - i,
            {
                let k = entries[i].0.clone();
                proof {
                    assert(decreases_to!(*entries => entries@));
                    assert(decreases_to!(entries@ => entries@[i as int]));
                    assert(decreases_to!(entries@[i as int] => entries@[i as int].1));
                    assert(decreases_to!(*v => (*v)->Object_0));
                    assert(decreases_to!(*v => entries@[i as int].1));
                }
                let c = json_clone(&entries[i].1);
                proof {
                    lemma_entries_view_push(out@, (k, c));
                    lemma_entries_view_push(entries@.take(i as int), entries@[i as int]);
                    assert(entries@.take(i as int).push(entries@[i as int]) =~= entries@.take(i + 1));
                }
                out.push((k, c));
                i = i + 1;
            }
            assert(entries@.take(entries@.len() as int) =~= entries@);
            JsonValue::Object(out)
        },
    }
}

impl JsonValue {
    /// A number holding `i`.
    pub fn from_i64(i: i64) -> (r: JsonValue)
        ensures
            r@ == json_int(i as int),
    {
        JsonValue::Number(JsonNumber::Int(i))
    }

    /// A string value.
    pub fn from_str(s: &str) -> (r: JsonValue)
        ensures
            r@ == Json::Str(s@),
    {
        JsonValue::String(string_of(s))
    }

    /// An object with no entries.
    pub fn empty_object() -> (r: JsonValue)
        ensures
            r@ == Json::Object(Seq::empty()),
    {
        JsonValue::Object(Vec::new())
    }

    /// `Value::is_null`.
    pub fn is_null(&self) -> (r: bool)
        ensures
            r == (self@ is Null),
    {
        match self {
            JsonValue::Null => true,
            _ => false,
        }
    }

    /// `Value::as_i64`.
    pub fn as_i64(&self) -> (r: Option<i64>)
        ensures
            r == json_as_i64(self@),
    {
        match self {
            JsonValue::Number(JsonNumber::Int(i)) => Some(*i),
            _ => None,
        }
    }

    /// `Value::as_str`.
    pub fn as_str(&self) -> (r: Option<&str>)
        ensures
            match r {
                Some(s) => json_as_str(self@) == Some(s@),
                None => json_as_str(self@) is None,
            },
    {
        match self {
            JsonValue::String(s) => Some(s.as_str()),
            _ => None,
        }
    }

    /// `Value::get` with a string key.
    pub fn get(&self, key: &str) -> (r: Option<&JsonValue>)
        ensures
            match r {
                Some(x) => json_get(self@, key@) == Some(x@),
                None => json_get(self@, key@) is None,
            },
    {
        match self {
            JsonValue::Object(entries) => {
                match find_entry(entries, key) {
                    Some(i) => {
                        proof {
                            lemma_entries_view(entries@);
                        }
                        Some(&entries[i].1)
                    },
                    None => None,
                }
            },
            _ => None,
        }
    }

    /// `v[key] = value` on an object, or on `null`, which becomes an object.
    pub fn set(&mut self, key: &str, value: JsonValue)
        requires
            json_settable(old(self)@),
        ensures
            final(self)@ == json_set(old(self)@, key@, value@),
    {
        let mut cur = JsonValue::Null;
        std::mem::swap(&mut cur, self);
        match cur {
            JsonValue::Object(mut entries) => {
                let k = string_of(key);
                match find_entry(&entries, key) {
                    Some(i) => {
                        proof {
                            lemma_entries_view_update(entries@, i as int, (k, value));
                        }
                        entries.set(i, (k, value));
                    },
                    None => {
                        proof {
                            lemma_entries_view_push(entries@, (k, value));
                        }
                        entries.push((k, value));
                    },
                }
                *self = JsonValue::Object(entries);
            },
            _ => {
                let mut entries: Vec<(String, JsonValue)> = Vec::new();
                let k = string_of(key);
                proof {
                    lemma_entries_view_push(entries@, (k, value));
                    assert(entries_view(entries@) =~= Seq::empty());
                }
                entries.push((k, value));
                proof {
                    assert(entries_view(entries@) =~= seq![(key@, value@)]);
                }
                *self = JsonValue::Object(entries);
            },
        }
    }
}

} // verus!
