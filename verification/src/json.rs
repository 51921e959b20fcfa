//! A JSON document as plain values, and reading members out of it.

use vstd::prelude::*;

verus! {

/// A JSON value. Numbers keep the text they were written with; an object
/// keeps its members in order, each key once.
pub enum JsonValue {
    Null,
    Bool(bool),
    Number(String),
    Str(String),
    Array(Vec<JsonValue>),
    Object(Vec<(String, JsonValue)>),
}

/// The value of the first member named `key`, if any.
pub open spec fn entry_value(entries: Seq<(String, JsonValue)>, key: Seq<char>) -> Option<JsonValue>
    decreases entries.len(),
{
    if entries.len() == 0 {
        None
    } else if entries[0].0@ == key {
        Some(entries[0].1)
    } else {
        entry_value(entries.drop_first(), key)
    }
}

impl JsonValue {
    /// The member `key` of an object; `Null` where `self` is no object or
    /// has no such member (what indexing a JSON value by a key gives).
    pub open spec fn member(self, key: Seq<char>) -> JsonValue {
        match self {
            JsonValue::Object(entries) => match entry_value(entries@, key) {
                Some(v) => v,
                None => JsonValue::Null,
            },
            _ => JsonValue::Null,
        }
    }

    /// The characters of a string value.
    pub open spec fn text(self) -> Option<Seq<char>> {
        match self {
            JsonValue::Str(s) => Some(s@),
            _ => None,
        }
    }

    /// The member `key` of an object; `None` stands for `Null`.
    pub fn get(&self, key: &str) -> (r: Option<&JsonValue>)
        ensures
            match r {
                Some(v) => *v == self.member(key@),
                None => self.member(key@) == JsonValue::Null,
            },
    {
        match self {
            JsonValue::Object(entries) => {
                let mut i: usize = 0;
                assert(entries@.skip(0) =~= entries@);
                while i < entries.len()
                    invariant
                        *self == JsonValue::Object(*entries),
                        i <= entries@.len(),
                        entry_value(entries@, key@) == entry_value(entries@.skip(i as int), key@),
                    decreases entries.len() - i,
                {
                    assert(entries@.skip(i as int).drop_first() =~= entries@.skip(i + 1));
                    assert(entries@.skip(i as int)[0] == entries@[i as int]);
                    if string_eq_str(&entries[i].0, key) {
                        return Some(&entries[i].1);
                    }
                    i = i + 1;
                }
                None
            },
            _ => None,
        }
    }
}

/// The member `key` of a possibly missing value (`None` stands for `Null`).
pub fn get_in<'a>(v: Option<&'a JsonValue>, key: &str) -> (r: Option<&'a JsonValue>)
    ensures
        match r {
            Some(x) => *x == opt_json(v).member(key@),
            None => opt_json(v).member(key@) == JsonValue::Null,
        },
{
    match v {
        Some(x) => x.get(key),
        None => None,
    }
}

/// A possibly missing value, `Null` standing for a missing one.
pub open spec fn opt_json(v: Option<&JsonValue>) -> JsonValue {
    match v {
        Some(x) => *x,
        None => JsonValue::Null,
    }
}

/// The string held by a possibly missing value.
pub fn text_of<'a>(v: Option<&'a JsonValue>) -> (r: Option<&'a String>)
    ensures
        match r {
            Some(s) => opt_json(v).text() == Some(s@),
            None => opt_json(v).text() is None,
        },
{
    match v {
        Some(JsonValue::Str(s)) => Some(s),
        _ => None,
    }
}

/// Whether a `String` holds exactly the characters of `b`.
pub fn string_eq_str(a: &String, b: &str) -> (r: bool)
    ensures
        r == (a@ == b@),
{
    let x = crate::text::chars_of(a.as_str());
    let y = crate::text::chars_of(b);
    if x.len() != y.len() {
        return false;
    }
    let mut i: usize = 0;
    while i < x.len()
        invariant
            x@ == a@,
            y@ == b@,
            x@.len() == y@.len(),
            i <= x@.len(),
            forall|k: int| 0 <= k < i ==> x@[k] == y@[k],
        decreases x.len() - i,
    {
        if x[i] != y[i] {
            assert(x@[i as int] != y@[i as int]);
            return false;
        }
        i = i + 1;
    }
    assert(x@ =~= y@);
    true
}

} // verus!
