//! A structured-content value: the crate's own model of a JSON document.
//!
//! The fetch stage hands the response in as a `Json` value; the
//! transformer then reads it through the verified accessors below. A
//! number keeps only its textual form, since the pipeline never reads
//! one.

use vstd::prelude::*;

verus! {

/// One structured value. An object keeps its members in document order;
/// `get` returns the first member with a given key.
pub enum Json {
    Null,
    Bool(bool),
    /// A number, held as its source text.
    Num(String),
    Str(String),
    Arr(Vec<Json>),
    Obj(Vec<(String, Json)>),
}

/// The first member of `entries` whose key reads `key`, if any.
pub open spec fn member_lookup(entries: Seq<(String, Json)>, key: Seq<char>) -> Option<Json>
    decreases entries.len(),
{
    if entries.len() == 0 {
        None
    } else if entries[0].0@ == key {
        Some(entries[0].1)
    } else {
        member_lookup(entries.drop_first(), key)
    }
}

/// What `get` returns: the member named `key` of an object, `None` on
/// any other kind of value.
pub open spec fn get_key(j: Json, key: Seq<char>) -> Option<Json> {
    match j {
        Json::Obj(entries) => member_lookup(entries@, key),
        _ => None,
    }
}

/// What `as_str` returns: the characters of a string value.
pub open spec fn str_value(j: Json) -> Option<Seq<char>> {
    match j {
        Json::Str(s) => Some(s@),
        _ => None,
    }
}

/// What `as_arr` returns: the elements of an array value.
pub open spec fn arr_value(j: Json) -> Option<Seq<Json>> {
    match j {
        Json::Arr(items) => Some(items@),
        _ => None,
    }
}

impl Json {
    /// The member named `key`, where `self` is an object holding one;
    /// `None` on every other value.
    pub fn get<'a>(&'a self, key: &str) -> (r: Option<&'a Json>)
        ensures
            match r {
                Some(v) => get_key(*self, key@) == Some(*v),
                None => get_key(*self, key@) is None,
            },
    {
        match self {
            Json::Obj(entries) => {
                let wanted = String::from_str(key);
                let n = entries.len();
                proof {
                    assert(entries@.subrange(0, n as int) =~= entries@);
                }
                let mut i: usize = 0;
                while i < n
                    invariant
                        n == entries@.len(),
                        i <= n,
                        wanted@ == key@,
                        get_key(*self, key@) == member_lookup(entries@, key@),
                        member_lookup(entries@, key@) == member_lookup(
                            entries@.subrange(i as int, n as int),
                            key@,
                        ),
                    decreases n - i,
                {
                    let pair = &entries[i];
                    if pair.0 == wanted {
                        proof {
                            let tail = entries@.subrange(i as int, n as int);
                            assert(tail[0] == entries@[i as int]);
                            assert(member_lookup(tail, key@) == Some(entries@[i as int].1));
                        }
                        return Some(&entries[i].1);
                    }
                    proof {
                        assert(entries@.subrange(i as int, n as int).drop_first() =~= entries@
                            .subrange(i as int + 1, n as int));
                    }
                    i += 1;
                }
                proof {
                    assert(entries@.subrange(n as int, n as int).len() == 0);
                }
                None
            },
            _ => None,
        }
    }

    /// The characters of `self` where it is a string value; `None` on
    /// every other value.
    pub fn as_str<'a>(&'a self) -> (r: Option<&'a str>)
        ensures
            match r {
                Some(s) => str_value(*self) == Some(s@),
                None => str_value(*self) is None,
            },
    {
        match self {
            Json::Str(s) => Some(s.as_str()),
            _ => None,
        }
    }

    /// The elements of `self` where it is an array value; `None` on
    /// every other value.
    pub fn as_arr<'a>(&'a self) -> (r: Option<&'a Vec<Json>>)
        ensures
            match r {
                Some(items) => arr_value(*self) == Some(items@),
                None => arr_value(*self) is None,
            },
    {
        match self {
            Json::Arr(items) => Some(items),
            _ => None,
        }
    }
}

} // verus!
