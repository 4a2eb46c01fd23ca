//! The JSON values the plugin exchanges with the host, as plain data.
//!
//! `JsonValue` holds what the plugin's logic reads and writes: the request
//! parameters it receives and the results it answers with. Its model `Json`
//! is the mathematical value contracts speak of. Objects are entry lists;
//! looking a key up finds its last entry, so that a list that repeats a key
//! means what inserting its entries in order into a map means.
use vstd::prelude::*;

use crate::text::{push_str, str_eq, views};

verus! {

/// A JSON number: a non-negative integer, a negative integer, or a
/// non-integral number carried as its decimal text.
#[derive(Debug, PartialEq)]
pub enum JsonNumber {
    PosInt(u64),
    NegInt(i64),
    Float(String),
}

/// A JSON value.
#[derive(Debug, PartialEq)]
pub enum JsonValue {
    Null,
    Bool(bool),
    Number(JsonNumber),
    String(String),
    Array(Vec<JsonValue>),
    Object(Vec<(String, JsonValue)>),
}

/// The mathematical model of a JSON value.
pub enum Json {
    Null,
    Bool(bool),
    Int(int),
    Float(Seq<char>),
    Str(Seq<char>),
    Array(Seq<Json>),
    Object(Seq<(Seq<char>, Json)>),
}

impl JsonValue {
    pub open spec fn model(self) -> Json
        decreases self,
    {
        match self {
            JsonValue::Null => Json::Null,
            JsonValue::Bool(b) => Json::Bool(b),
            JsonValue::Number(JsonNumber::PosInt(u)) => Json::Int(u as int),
            JsonValue::Number(JsonNumber::NegInt(i)) => Json::Int(i as int),
            JsonValue::Number(JsonNumber::Float(t)) => Json::Float(t@),
            JsonValue::String(s) => Json::Str(s@),
            JsonValue::Array(items) => Json::Array(models(items@)),
            JsonValue::Object(entries) => Json::Object(entry_models(entries@)),
        }
    }
}

/// The models of a sequence of values.
pub open spec fn models(items: Seq<JsonValue>) -> Seq<Json>
    decreases items,
{
    if items.len() == 0 {
        seq![]
    } else {
        models(items.drop_last()).push(items.last().model())
    }
}

/// The models of a sequence of object entries.
pub open spec fn entry_models(entries: Seq<(String, JsonValue)>) -> Seq<(Seq<char>, Json)>
    decreases entries,
{
    if entries.len() == 0 {
        seq![]
    } else {
        entry_models(entries.drop_last()).push(
            (entries.last().0@, entries.last().1.model()),
        )
    }
}

impl View for JsonValue {
    type V = Json;

    open spec fn view(&self) -> Json {
        self.model()
    }
}

/// The value of the last entry with key `key`.
pub open spec fn obj_get(entries: Seq<(Seq<char>, Json)>, key: Seq<char>) -> Option<Json>
    decreases entries.len(),
{
    if entries.len() == 0 {
        None
    } else if entries.last().0 == key {
        Some(entries.last().1)
    } else {
        obj_get(entries.drop_last(), key)
    }
}

impl Json {
    /// `Value::get` with a string key.
    pub open spec fn get(self, key: Seq<char>) -> Option<Json> {
        match self {
            Json::Object(entries) => obj_get(entries, key),
            _ => None,
        }
    }

    /// `Value::as_str`.
    pub open spec fn as_str(self) -> Option<Seq<char>> {
        match self {
            Json::Str(s) => Some(s),
            _ => None,
        }
    }

    /// `Value::as_u64`.
    pub open spec fn as_u64(self) -> Option<u64> {
        match self {
            Json::Int(i) => if 0 <= i <= u64::MAX {
                Some(i as u64)
            } else {
                None
            },
            _ => None,
        }
    }

    /// `Value::as_i64`.
    pub open spec fn as_i64(self) -> Option<i64> {
        match self {
            Json::Int(i) => if i64::MIN <= i <= i64::MAX {
                Some(i as i64)
            } else {
                None
            },
            _ => None,
        }
    }

    /// `Value::as_bool`.
    pub open spec fn as_bool(self) -> Option<bool> {
        match self {
            Json::Bool(b) => Some(b),
            _ => None,
        }
    }

    /// `Value::as_array`.
    pub open spec fn as_array(self) -> Option<Seq<Json>> {
        match self {
            Json::Array(items) => Some(items),
            _ => None,
        }
    }

    /// `Value::as_object`.
    pub open spec fn as_object(self) -> Option<Seq<(Seq<char>, Json)>> {
        match self {
            Json::Object(entries) => Some(entries),
            _ => None,
        }
    }
}

/// `models` is the pointwise model.
pub proof fn lemma_models(items: Seq<JsonValue>)
    ensures
        models(items).len() == items.len(),
        forall|i: int| 0 <= i < items.len() ==> #[trigger] models(items)[i] == items[i].model(),
    decreases items.len(),
{
    if items.len() > 0 {
        lemma_models(items.drop_last());
    }
}

/// `entry_models` is the pointwise model.
pub proof fn lemma_entry_models(entries: Seq<(String, JsonValue)>)
    ensures
        entry_models(entries).len() == entries.len(),
        forall|i: int|
            0 <= i < entries.len() ==> #[trigger] entry_models(entries)[i] == (
                entries[i].0@,
                entries[i].1.model(),
            ),
    decreases entries.len(),
{
    if entries.len() > 0 {
        lemma_entry_models(entries.drop_last());
    }
}

/// The items of a vector in reverse order, moved.
pub fn reversed<T>(v: Vec<T>) -> (r: Vec<T>)
    ensures
        r@.len() == v@.len(),
        forall|i: int| 0 <= i < v@.len() ==> #[trigger] r@[i] == v@[v@.len() - 1 - i],
{
    let ghost orig = v@;
    let mut v = v;
    let mut out: Vec<T> = Vec::new();
    while v.len() > 0
        invariant
            v@ == orig.take(v@.len() as int),
            out@.len() + v@.len() == orig.len(),
            forall|i: int| 0 <= i < out@.len() ==> #[trigger] out@[i] == orig[orig.len() - 1 - i],
        decreases v@.len(),
    {
        match v.pop() {
            Some(x) => {
                out.push(x);
                assert(v@ =~= orig.take(v@.len() as int));
            },
            None => {},
        }
    }
    out
}

/// A JSON array of strings.
pub open spec fn str_array(items: Seq<Seq<char>>) -> Json {
    Json::Array(items.map_values(|s: Seq<char>| Json::Str(s)))
}

impl JsonValue {
    pub fn from_bool(b: bool) -> (r: JsonValue)
        ensures
            r@ == Json::Bool(b),
    {
        JsonValue::Bool(b)
    }

    /// A JSON integer, as `serde_json` builds one from a `u64`.
    pub fn from_u64(n: u64) -> (r: JsonValue)
        ensures
            r@ == Json::Int(n as int),
    {
        JsonValue::Number(JsonNumber::PosInt(n))
    }

    /// A JSON integer, as `serde_json` builds one from an `i64`.
    pub fn from_i64(i: i64) -> (r: JsonValue)
        ensures
            r@ == Json::Int(i as int),
    {
        if i >= 0 {
            JsonValue::Number(JsonNumber::PosInt(i as u64))
        } else {
            JsonValue::Number(JsonNumber::NegInt(i))
        }
    }

    pub fn from_str(s: &str) -> (r: JsonValue)
        ensures
            r@ == Json::Str(s@),
    {
        let mut t = String::new();
        push_str(&mut t, s);
        assert(t@ =~= s@);
        JsonValue::String(t)
    }

    /// Appends an item to an array under construction.
    pub fn push_item(items: &mut Vec<JsonValue>, value: JsonValue)
        ensures
            final(items)@ == old(items)@.push(value),
            models(final(items)@) == models(old(items)@).push(value@),
    {
        let ghost before = items@;
        items.push(value);
        assert(items@.drop_last() =~= before);
    }

    /// Appends an entry to an object under construction.
    pub fn push_entry(entries: &mut Vec<(String, JsonValue)>, key: &str, value: JsonValue)
        ensures
            final(entries)@.len() == old(entries)@.len() + 1,
            entry_models(final(entries)@) == entry_models(old(entries)@).push((key@, value@)),
    {
        let ghost before = entries@;
        let mut k = String::new();
        push_str(&mut k, key);
        assert(k@ =~= key@);
        entries.push((k, value));
        assert(entries@.drop_last() =~= before);
    }

    /// The array of the given strings.
    pub fn string_array(items: &Vec<String>) -> (r: JsonValue)
        ensures
            r@ == str_array(views(items@)),
    {
        let mut out: Vec<JsonValue> = Vec::new();
        let mut i: usize = 0;
        while i < items.len()
            invariant
                i <= items@.len(),
                models(out@) == views(items@).take(i as int).map_values(
                    |s: Seq<char>| Json::Str(s),
                ),
            decreases items@.len() - i,
        {
            let ghost before = models(out@);
            JsonValue::push_item(&mut out, JsonValue::String(items[i].clone()));
            assert(models(out@) =~= views(items@).take(i + 1).map_values(
                |s: Seq<char>| Json::Str(s),
            ));
            i = i + 1;
        }
        assert(views(items@).take(items@.len() as int) =~= views(items@));
        JsonValue::Array(out)
    }

    /// `Value::is_null`.
    pub fn is_null(&self) -> (r: bool)
        ensures
            r == (self@ == Json::Null),
    {
        match self {
            JsonValue::Null => true,
            _ => false,
        }
    }

    /// `Value::as_str`.
    pub fn as_str(&self) -> (r: Option<&str>)
        ensures
            match r {
                Some(s) => self@.as_str() == Some(s@),
                None => self@.as_str() is None,
            },
    {
        match self {
            JsonValue::String(s) => Some(s.as_str()),
            _ => None,
        }
    }

    /// `Value::as_u64`.
    pub fn as_u64(&self) -> (r: Option<u64>)
        ensures
            r == self@.as_u64(),
    {
        match self {
            JsonValue::Number(JsonNumber::PosInt(u)) => Some(*u),
            JsonValue::Number(JsonNumber::NegInt(i)) => if *i >= 0 {
                Some(*i as u64)
            } else {
                None
            },
            _ => None,
        }
    }

    /// `Value::as_i64`.
    pub fn as_i64(&self) -> (r: Option<i64>)
        ensures
            r == self@.as_i64(),
    {
        match self {
            JsonValue::Number(JsonNumber::PosInt(u)) => if *u <= 9223372036854775807u64 {
                Some(*u as i64)
            } else {
                None
            },
            JsonValue::Number(JsonNumber::NegInt(i)) => Some(*i),
            _ => None,
        }
    }

    /// `Value::as_bool`.
    pub fn as_bool(&self) -> (r: Option<bool>)
        ensures
            r == self@.as_bool(),
    {
        match self {
            JsonValue::Bool(b) => Some(*b),
            _ => None,
        }
    }

    /// `Value::as_array`.
    pub fn as_array(&self) -> (r: Option<&Vec<JsonValue>>)
        ensures
            match r {
                Some(items) => self@.as_array() == Some(models(items@)),
                None => self@.as_array() is None,
            },
    {
        match self {
            JsonValue::Array(items) => Some(items),
            _ => None,
        }
    }

    /// `Value::as_object`.
    pub fn as_object(&self) -> (r: Option<&Vec<(String, JsonValue)>>)
        ensures
            match r {
                Some(entries) => self@.as_object() == Some(entry_models(entries@)),
                None => self@.as_object() is None,
            },
    {
        match self {
            JsonValue::Object(entries) => Some(entries),
            _ => None,
        }
    }

    /// `Value::get` with a string key.
    pub fn get(&self, key: &str) -> (r: Option<&JsonValue>)
        ensures
            match r {
                Some(v) => self@.get(key@) == Some(v@),
                None => self@.get(key@) is None,
            },
    {
        match self {
            JsonValue::Object(entries) => {
                let ghost m = entry_models(entries@);
                proof {
                    lemma_entry_models(entries@);
                    assert(m.take(m.len() as int) =~= m);
                }
                let mut i = entries.len();
                while i > 0
                    invariant
                        i <= entries@.len(),
                        *self == JsonValue::Object(*entries),
                        m == entry_models(entries@),
                        m.len() == entries@.len(),
                        forall|j: int|
                            0 <= j < entries@.len() ==> #[trigger] m[j] == (
                                entries@[j].0@,
                                entries@[j].1.model(),
                            ),
                        obj_get(m, key@) == obj_get(m.take(i as int), key@),
                    decreases i,
                {
                    let ghost prefix = m.take(i as int);
                    assert(prefix.drop_last() =~= m.take(i - 1));
                    assert(prefix.last() == m[i - 1]);
                    let entry = &entries[i - 1];
                    if str_eq(entry.0.as_str(), key) {
                        assert(*entry == entries@[i - 1]);
                        assert(m[i - 1] == (entry.0@, entry.1.model()));
                        assert(obj_get(prefix, key@) == Some(prefix.last().1));
                        return Some(&entry.1);
                    }
                    i = i - 1;
                }
                None
            },
            _ => None,
        }
    }

    /// A copy with the same model.
    pub fn duplicate(&self) -> (r: JsonValue)
        ensures
            r@ == self@,
        decreases self,
    {
        match self {
            JsonValue::Null => JsonValue::Null,
            JsonValue::Bool(b) => JsonValue::Bool(*b),
            JsonValue::Number(JsonNumber::PosInt(u)) => JsonValue::Number(JsonNumber::PosInt(*u)),
            JsonValue::Number(JsonNumber::NegInt(i)) => JsonValue::Number(JsonNumber::NegInt(*i)),
            JsonValue::Number(JsonNumber::Float(t)) => JsonValue::Number(
                JsonNumber::Float(t.clone()),
            ),
            JsonValue::String(s) => JsonValue::String(s.clone()),
            JsonValue::Array(items) => {
                let mut out: Vec<JsonValue> = Vec::new();
                let mut i: usize = 0;
                while i < items.len()
                    invariant
                        i <= items@.len(),
                        *self == JsonValue::Array(*items),
                        models(out@) == models(items@.take(i as int)),
                    decreases items@.len() - i,
                {
                    proof {
                        assert((*self)->Array_0 == *items);
                        assert(decreases_to!(*self => (*self)->Array_0));
                        assert(decreases_to!(*items => items@));
                        assert(decreases_to!(items@ => items@[i as int]));
                    }
                    let item = items[i].duplicate();
                    let ghost before = out@;
                    out.push(item);
                    assert(out@.drop_last() =~= before);
                    assert(items@.take(i + 1).drop_last() =~= items@.take(i as int));
                    i = i + 1;
                }
                assert(items@.take(items@.len() as int) =~= items@);
                JsonValue::Array(out)
            },
            JsonValue::Object(entries) => {
                let mut out: Vec<(String, JsonValue)> = Vec::new();
                let mut i: usize = 0;
                while i < entries.len()
                    invariant
                        i <= entries@.len(),
                        *self == JsonValue::Object(*entries),
                        entry_models(out@) == entry_models(entries@.take(i as int)),
                    decreases entries@.len() - i,
                {
                    proof {
                        assert((*self)->Object_0 == *entries);
                        assert(decreases_to!(*self => (*self)->Object_0));
                        assert(decreases_to!(*entries => entries@));
                        assert(decreases_to!(entries@ => entries@[i as int]));
                        assert(decreases_to!(entries@[i as int] => entries@[i as int].1));
                    }
                    let value = entries[i].1.duplicate();
                    let key = entries[i].0.clone();
                    let ghost before = out@;
                    out.push((key, value));
                    assert(out@.drop_last() =~= before);
                    assert(entries@.take(i + 1).drop_last() =~= entries@.take(i as int));
                    i = i + 1;
                }
                assert(entries@.take(entries@.len() as int) =~= entries@);
                JsonValue::Object(out)
            },
        }
    }
}

} // verus!
