//! A plain model of parsed TOML data.
//!
//! Manifest files reach this crate already parsed: the caller turns the text
//! into a tree of [`TomlValue`]s, and the configuration logic here works on
//! that tree. Tables keep their entries in order, as a list of key/value
//! pairs; a lookup returns the first entry with a matching key.

use crate::strutil;
use vstd::prelude::*;

verus! {

/// A parsed TOML value.
#[derive(Debug)]
pub enum TomlValue {
    /// A string value.
    Str(String),
    /// An integer value.
    Integer(i64),
    /// A boolean value.
    Boolean(bool),
    /// An array of values.
    Array(Vec<TomlValue>),
    /// A table: key/value pairs in file order.
    Table(Vec<(String, TomlValue)>),
}

/// The value of the first entry of `entries` under `key`, if any.
pub open spec fn spec_table_get(entries: Seq<(String, TomlValue)>, key: Seq<char>) -> Option<
    TomlValue,
>
    decreases entries.len(),
{
    if entries.len() == 0 {
        None
    } else if entries[0].0@ == key {
        Some(entries[0].1)
    } else {
        spec_table_get(entries.skip(1), key)
    }
}

/// What looking up `key` in `v` yields: the entry of the table under that
/// key; anything but a table has no entries.
pub open spec fn spec_get(v: TomlValue, key: Seq<char>) -> Option<TomlValue> {
    match v {
        TomlValue::Table(entries) => spec_table_get(entries@, key),
        _ => None,
    }
}

impl TomlValue {
    /// Looks up `key` in a table value; returns the first entry with that
    /// key, or nothing if `self` is not a table or has no such entry.
    pub fn get<'a>(&'a self, key: &str) -> (r: Option<&'a TomlValue>)
        ensures
            match r {
                Some(v) => spec_get(*self, key@) == Some(*v),
                None => spec_get(*self, key@) is None,
            },
    {
        match self {
            TomlValue::Table(entries) => {
                let ghost es = entries@;
                let mut i: usize = 0;
                proof {
                    assert(es.skip(0) =~= es);
                }
                while i < entries.len()
                    invariant
                        *self matches TomlValue::Table(e) && e@ == es,
                        es == entries@,
                        i <= entries.len(),
                        spec_table_get(es, key@) == spec_table_get(es.skip(i as int), key@),
                    decreases entries.len() - i,
                {
                    let ghost rest = es.skip(i as int);
                    proof {
                        assert(rest[0] == es[i as int]);
                        assert(rest.skip(1) =~= es.skip(i + 1));
                    }
                    if strutil::str_eq(entries[i].0.as_str(), key) {
                        return Some(&entries[i].1);
                    }
                    i += 1;
                }
                proof {
                    assert(es.skip(es.len() as int) =~= Seq::<(String, TomlValue)>::empty());
                }
                None
            },
            _ => None,
        }
    }

    /// The string inside a string value.
    pub fn as_str<'a>(&'a self) -> (r: Option<&'a String>)
        ensures
            match r {
                Some(s) => *self matches TomlValue::Str(t) && t == *s,
                None => !(*self is Str),
            },
    {
        match self {
            TomlValue::Str(s) => Some(s),
            _ => None,
        }
    }

    /// The number inside an integer value.
    pub fn as_integer(&self) -> (r: Option<i64>)
        ensures
            match r {
                Some(n) => *self == TomlValue::Integer(n),
                None => !(*self is Integer),
            },
    {
        match self {
            TomlValue::Integer(n) => Some(*n),
            _ => None,
        }
    }

    /// The truth value inside a boolean value.
    pub fn as_bool(&self) -> (r: Option<bool>)
        ensures
            match r {
                Some(b) => *self == TomlValue::Boolean(b),
                None => !(*self is Boolean),
            },
    {
        match self {
            TomlValue::Boolean(b) => Some(*b),
            _ => None,
        }
    }

    /// The elements of an array value.
    pub fn as_array<'a>(&'a self) -> (r: Option<&'a Vec<TomlValue>>)
        ensures
            match r {
                Some(a) => *self matches TomlValue::Array(b) && b == *a,
                None => !(*self is Array),
            },
    {
        match self {
            TomlValue::Array(a) => Some(a),
            _ => None,
        }
    }

    /// The entries of a table value.
    pub fn as_table<'a>(&'a self) -> (r: Option<&'a Vec<(String, TomlValue)>>)
        ensures
            match r {
                Some(t) => *self matches TomlValue::Table(u) && u == *t,
                None => !(*self is Table),
            },
    {
        match self {
            TomlValue::Table(t) => Some(t),
            _ => None,
        }
    }
}

} // verus!
