//! A JSON document as the live-room client hands raw commands over: the same
//! shape as a `serde_json::Value`, with lookups that behave as its `get` and
//! `as_str` do.

use vstd::prelude::*;

use crate::text::same_text;

verus! {

/// A JSON value. Object members keep their order; a lookup by key finds the
/// first member with that key.
pub enum JsonValue {
    Null,
    Bool(bool),
    /// A number, by its JSON text.
    Number(String),
    Str(String),
    Array(Vec<JsonValue>),
    Object(Vec<(String, JsonValue)>),
}

/// The value of the first member named `key`.
pub open spec fn member(entries: Seq<(String, JsonValue)>, key: Seq<char>) -> Option<JsonValue>
    decreases entries.len(),
{
    if entries.len() == 0 {
        None
    } else if entries[0].0@ == key {
        Some(entries[0].1)
    } else {
        member(entries.drop_first(), key)
    }
}

/// `value.get(key)`: the member `key` of an object, `None` for any other value.
pub open spec fn field(value: JsonValue, key: Seq<char>) -> Option<JsonValue> {
    match value {
        JsonValue::Object(entries) => member(entries@, key),
        _ => None,
    }
}

/// `opt.and_then(|v| v.get(key))`.
pub open spec fn field_of(opt: Option<JsonValue>, key: Seq<char>) -> Option<JsonValue> {
    match opt {
        Some(v) => field(v, key),
        None => None,
    }
}

/// `opt.and_then(|v| v.as_str())`.
pub open spec fn text_of(opt: Option<JsonValue>) -> Option<Seq<char>> {
    match opt {
        Some(JsonValue::Str(s)) => Some(s@),
        _ => None,
    }
}

/// `text.unwrap_or(default)`.
pub open spec fn text_or(text: Option<Seq<char>>, default: Seq<char>) -> Seq<char> {
    match text {
        Some(t) => t,
        None => default,
    }
}

proof fn lemma_member_at(entries: Seq<(String, JsonValue)>, key: Seq<char>, i: int)
    requires
        0 <= i <= entries.len(),
        forall|j: int| 0 <= j < i ==> (#[trigger] entries[j]).0@ != key,
    ensures
        member(entries, key) == member(entries.subrange(i, entries.len() as int), key),
    decreases i,
{
    if i > 0 {
        let t = entries.drop_first();
        assert forall|j: int| 0 <= j < i - 1 implies (#[trigger] t[j]).0@ != key by {
            assert(t[j] == entries[j + 1]);
        }
        lemma_member_at(t, key, i - 1);
        assert(t.subrange(i - 1, t.len() as int) =~= entries.subrange(i, entries.len() as int));
    } else {
        assert(entries.subrange(0, entries.len() as int) =~= entries);
    }
}

impl JsonValue {
    /// The member `key` of an object; `None` for other values or a missing key.
    pub fn get(&self, key: &str) -> (r: Option<&JsonValue>)
        ensures
            match r {
                Some(v) => field(*self, key@) == Some(*v),
                None => field(*self, key@) is None,
            },
    {
        match self {
            JsonValue::Object(entries) => {
                let mut i: usize = 0;
                while i < entries.len()
                    invariant
                        i <= entries.len(),
                        field(*self, key@) == member(entries@, key@),
                        forall|j: int| 0 <= j < i ==> (#[trigger] entries@[j]).0@ != key@,
                    decreases entries.len() - i,
                {
                    if same_text(entries[i].0.as_str(), key) {
                        proof {
                            lemma_member_at(entries@, key@, i as int);
                            let rest = entries@.subrange(i as int, entries@.len() as int);
                            assert(rest[0] == entries@[i as int]);
                            assert(member(rest, key@) == Some(entries@[i as int].1));
                        }
                        return Some(&entries[i].1);
                    }
                    i = i + 1;
                }
                proof {
                    lemma_member_at(entries@, key@, i as int);
                }
                None
            },
            _ => None,
        }
    }

    /// The text of a string value.
    pub fn as_str(&self) -> (r: Option<&str>)
        ensures
            match r {
                Some(s) => text_of(Some(*self)) == Some(s@),
                None => text_of(Some(*self)) is None,
            },
    {
        match self {
            JsonValue::Str(s) => Some(s.as_str()),
            _ => None,
        }
    }
}

/// The value behind an optional reference.
pub open spec fn deref_opt(opt: Option<&JsonValue>) -> Option<JsonValue> {
    match opt {
        Some(v) => Some(*v),
        None => None,
    }
}

/// `opt.and_then(|v| v.get(key))`.
pub fn get_in<'a>(opt: Option<&'a JsonValue>, key: &str) -> (r: Option<&'a JsonValue>)
    ensures
        match r {
            Some(v) => field_of(deref_opt(opt), key@) == Some(*v),
            None => field_of(deref_opt(opt), key@) is None,
        },
{
    match opt {
        Some(v) => v.get(key),
        None => None,
    }
}

/// `opt.and_then(|v| v.as_str()).unwrap_or(default)` as an owned string.
pub fn text_or_default(opt: Option<&JsonValue>, default: &str) -> (r: String)
    ensures
        r@ == text_or(text_of(deref_opt(opt)), default@),
{
    match opt {
        Some(v) => match v.as_str() {
            Some(s) => String::from_str(s),
            None => String::from_str(default),
        },
        None => String::from_str(default),
    }
}

} // verus!
