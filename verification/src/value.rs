//! The untyped payloads of the message bus, as a local tagged-variant tree.
//!
//! A response arrives as a numeric status and a map of named, dynamically
//! typed values. Rather than assuming any shape, the crate represents such a
//! payload as a [`Value`] tree and decodes it by pattern matching, so every
//! mismatch surfaces as a typed parse failure instead of a crash.

use vstd::prelude::*;

verus! {

/// One node of a dynamically typed payload tree: a scalar, an ordered list
/// (an array or an ordered pair both arrive this way), or a map of named
/// entries.
#[derive(Debug, PartialEq)]
pub enum Value {
    /// A UTF-8 string.
    Str(String),
    /// An unsigned integer of any width up to 64 bits.
    Uint(u64),
    /// A signed integer of any width up to 64 bits.
    Int(i64),
    /// A boolean.
    Bool(bool),
    /// An ordered sequence: an array, or a tuple such as `(width, height)`.
    List(Vec<Value>),
    /// A map of named entries, in delivery order.
    Dict(Vec<(String, Value)>),
}

/// The raw shape of every portal response signal: a status word and a map of
/// named results. Status zero means success; anything else means the user
/// declined or the remote rejected the request.
#[derive(Debug, PartialEq)]
pub struct Response {
    /// The numeric outcome the remote service reported.
    pub status: u32,
    /// The named result values, in delivery order.
    pub results: Vec<(String, Value)>,
}

/// The first entry named `key`, if any.
pub open spec fn lookup_spec(entries: Seq<(String, Value)>, key: Seq<char>) -> Option<Value>
    decreases entries.len(),
{
    if entries.len() == 0 {
        None
    } else if entries[0].0@ == key {
        Some(entries[0].1)
    } else {
        lookup_spec(entries.drop_first(), key)
    }
}

/// Finds the first entry named `key`.
pub fn lookup<'a>(entries: &'a Vec<(String, Value)>, key: &String) -> (r: Option<&'a Value>)
    ensures
        match r {
            Some(v) => lookup_spec(entries@, key@) == Some(*v),
            None => lookup_spec(entries@, key@) is None,
        },
{
    let n = entries.len();
    let mut i: usize = 0;
    proof {
        assert(entries@.skip(0) =~= entries@);
    }
    while i < n
        invariant
            0 <= i <= n,
            n == entries@.len(),
            lookup_spec(entries@, key@) == lookup_spec(entries@.skip(i as int), key@),
        decreases n - i,
    {
        proof {
            assert(entries@.skip(i as int)[0] == entries@[i as int]);
            assert(entries@.skip(i as int).drop_first() =~= entries@.skip(i as int + 1));
        }
        if entries[i].0.eq(key) {
            return Some(&entries[i].1);
        }
        i += 1;
    }
    proof {
        assert(entries@.skip(n as int) =~= Seq::<(String, Value)>::empty());
    }
    None
}

} // verus!
