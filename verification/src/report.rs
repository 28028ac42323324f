//! The value tree a report arrives as: named values, lists and scalars,
//! mirroring the provider's JSON shape. The boundary code turns the wire
//! format into this tree; every decoder in the library reads it through the
//! typed accessors below. Fractional numbers are carried in millionths so
//! the decoders can normalise them with integer arithmetic alone.

use vstd::prelude::*;

use crate::text::str_chars;

verus! {

/// One node of a report's value tree.
#[derive(Debug, PartialEq, Eq)]
pub enum ReportValue {
    Null,
    Bool(bool),
    /// A whole number.
    Int(i64),
    /// A fractional number, in millionths of a unit.
    Frac(i64),
    Text(String),
    List(Vec<ReportValue>),
    Object(Vec<(String, ReportValue)>),
}

/// The first value stored under `key`, if any.
pub open spec fn lookup(entries: Seq<(String, ReportValue)>, key: Seq<char>) -> Option<
    ReportValue,
>
    decreases entries.len(),
{
    if entries.len() == 0 {
        Option::None
    } else if entries[0].0@ == key {
        Option::Some(entries[0].1)
    } else {
        lookup(entries.skip(1), key)
    }
}

/// What `get` returns: the first value under `key` of an object node, and
/// nothing on any other node.
pub open spec fn spec_get(v: ReportValue, key: Seq<char>) -> Option<ReportValue> {
    match v {
        ReportValue::Object(entries) => lookup(entries@, key),
        _ => Option::None,
    }
}

/// The value of a node under two nested keys.
pub open spec fn spec_get2(v: ReportValue, key1: Seq<char>, key2: Seq<char>) -> Option<
    ReportValue,
> {
    match spec_get(v, key1) {
        Option::Some(inner) => spec_get(inner, key2),
        Option::None => Option::None,
    }
}

/// The whole number held by a node, if it holds one.
pub open spec fn spec_as_int(v: ReportValue) -> Option<i64> {
    match v {
        ReportValue::Int(n) => Option::Some(n),
        _ => Option::None,
    }
}

/// The text held by a node, if it holds text.
pub open spec fn spec_as_text(v: ReportValue) -> Option<Seq<char>> {
    match v {
        ReportValue::Text(s) => Option::Some(s@),
        _ => Option::None,
    }
}

/// The whole number under two nested keys, if present.
pub open spec fn spec_int_at(v: ReportValue, key1: Seq<char>, key2: Seq<char>) -> Option<i64> {
    match spec_get2(v, key1, key2) {
        Option::Some(inner) => spec_as_int(inner),
        Option::None => Option::None,
    }
}

/// The text under two nested keys, if present.
pub open spec fn spec_text_at(v: ReportValue, key1: Seq<char>, key2: Seq<char>) -> Option<
    Seq<char>,
> {
    match spec_get2(v, key1, key2) {
        Option::Some(inner) => spec_as_text(inner),
        Option::None => Option::None,
    }
}

impl ReportValue {
    /// Look a key up in an object node; any other node holds nothing.
    pub fn get<'a>(&'a self, key: &str) -> (r: Option<&'a ReportValue>)
        ensures
            (match r {
                Option::Some(v) => spec_get(*self, key@) == Option::Some(*v),
                Option::None => spec_get(*self, key@) is None,
            }),
    {
        let key_chars = str_chars(key);
        match self {
            ReportValue::Object(entries) => {
                let n = entries.len();
                let mut i: usize = 0;
                proof {
                    assert(entries@.skip(0) =~= entries@);
                }
                while i < n
                    invariant
                        i <= n,
                        n == entries@.len(),
                        spec_get(*self, key@) == lookup(entries@.skip(i as int), key@),
                        key_chars@ == key@,
                    decreases n - i,
                {
                    let entry_key = str_chars(entries[i].0.as_str());
                    let hit = crate::text::chars_eq(&entry_key, &key_chars);
                    proof {
                        assert(entries@.skip(i as int)[0] == entries@[i as int]);
                        assert(entries@.skip(i as int).skip(1) =~= entries@.skip(i as int + 1));
                    }
                    if hit {
                        proof {
                            assert(entries@.skip(i as int)[0].0@ == key@);
                            assert(lookup(entries@.skip(i as int), key@) == Option::Some(
                                entries@[i as int].1,
                            ));
                        }
                        return Option::Some(&entries[i].1);
                    }
                    i = i + 1;
                }
                Option::None
            },
            _ => Option::None,
        }
    }

    /// The whole number this node holds, if it holds one.
    pub fn as_int(&self) -> (r: Option<i64>)
        ensures
            r == spec_as_int(*self),
    {
        match self {
            ReportValue::Int(n) => Option::Some(*n),
            _ => Option::None,
        }
    }

    /// The text this node holds, if it holds text.
    pub fn as_text<'a>(&'a self) -> (r: Option<&'a String>)
        ensures
            (match r {
                Option::Some(s) => spec_as_text(*self) == Option::Some(s@),
                Option::None => spec_as_text(*self) is None,
            }),
    {
        match self {
            ReportValue::Text(s) => Option::Some(s),
            _ => Option::None,
        }
    }

    /// The list this node holds, if it holds one.
    pub fn as_list<'a>(&'a self) -> (r: Option<&'a Vec<ReportValue>>)
        ensures
            (match r {
                Option::Some(items) => self matches ReportValue::List(l) && l@ == items@,
                Option::None => !(self matches ReportValue::List(_)),
            }),
    {
        match self {
            ReportValue::List(items) => Option::Some(items),
            _ => Option::None,
        }
    }

    /// The whole number stored under two nested keys, if present.
    pub fn int_at(&self, key1: &str, key2: &str) -> (r: Option<i64>)
        ensures
            r == spec_int_at(*self, key1@, key2@),
    {
        match self.get(key1) {
            Option::Some(inner) => match inner.get(key2) {
                Option::Some(v) => v.as_int(),
                Option::None => Option::None,
            },
            Option::None => Option::None,
        }
    }

    /// The text stored under two nested keys, if present.
    pub fn text_at<'a>(&'a self, key1: &str, key2: &str) -> (r: Option<&'a String>)
        ensures
            (match r {
                Option::Some(s) => spec_text_at(*self, key1@, key2@) == Option::Some(s@),
                Option::None => spec_text_at(*self, key1@, key2@) is None,
            }),
    {
        match self.get(key1) {
            Option::Some(inner) => match inner.get(key2) {
                Option::Some(v) => v.as_text(),
                Option::None => Option::None,
            },
            Option::None => Option::None,
        }
    }
}

} // verus!
