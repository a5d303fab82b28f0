//! The JSON values the decoders consume.
//!
//! A document arrives already materialized as a tree of plain values. A
//! numeric token keeps the exact representation the serializer chose:
//! a signed integer, an unsigned integer, or a non-integer number (carried
//! opaquely as the bits of its closest binary64 value, since the decoders
//! never compute with it — they pass it through).

use vstd::prelude::*;

verus! {

/// One JSON numeric token.
#[derive(Debug, Clone, Copy, PartialEq, Eq, Structural)]
pub enum Number {
    /// An integer that arrived in a signed representation.
    Int(i64),
    /// An integer that arrived in an unsigned representation.
    UInt(u64),
    /// A non-integer number, as the bits of its binary64 value.
    Float(u64),
}

/// One JSON value.
#[derive(Debug)]
pub enum Json {
    Null,
    Bool(bool),
    Num(Number),
    Str(String),
    Array(Vec<Json>),
    Object(Vec<(String, Json)>),
}

/// The value under `key` in an object's entry list: the first entry whose
/// key matches, as a well-formed JSON object has no duplicate keys.
pub open spec fn spec_lookup(es: Seq<(String, Json)>, key: Seq<char>) -> Option<Json>
    decreases es.len(),
{
    if es.len() == 0 {
        None
    } else if es[0].0@ == key {
        Some(es[0].1)
    } else {
        spec_lookup(es.skip(1), key)
    }
}

/// The value of an optional field: a key that is absent and a key that is
/// explicitly `null` are the same "not present" state.
pub open spec fn spec_opt(es: Seq<(String, Json)>, key: Seq<char>) -> Option<Json> {
    match spec_lookup(es, key) {
        Option::None => None,
        Option::Some(v) => if v is Null {
            None
        } else {
            Some(v)
        },
    }
}

/// An optional field whose key is absent and one whose key holds an
/// explicit `null` are the same "not present" state — never a default.
pub proof fn lemma_null_is_absent(es: Seq<(String, Json)>, key: Seq<char>)
    ensures
        spec_lookup(es, key) == Some(Json::Null) ==> spec_opt(es, key) is None,
        spec_lookup(es, key) is None ==> spec_opt(es, key) is None,
{
}

/// Relies on `str`'s `PartialEq`: two string slices are equal exactly when
/// their character sequences are.
#[verifier::external_body]
pub fn str_eq(a: &str, b: &str) -> (r: bool)
    ensures
        r == (a@ == b@),
{
    a == b
}

proof fn lemma_lookup_skip(es: Seq<(String, Json)>, key: Seq<char>, i: int)
    requires
        0 <= i <= es.len(),
        forall|k: int| 0 <= k < i ==> es[k].0@ != key,
    ensures
        spec_lookup(es, key) == spec_lookup(es.skip(i), key),
    decreases i,
{
    if i == 0 {
        assert(es.skip(0) =~= es);
    } else {
        lemma_lookup_skip(es, key, i - 1);
        assert(es.skip(i - 1)[0] == es[i - 1]);
        assert(es.skip(i - 1).skip(1) =~= es.skip(i));
    }
}

/// Finds `key` in an object's entry list.
pub fn lookup<'a>(es: &'a Vec<(String, Json)>, key: &str) -> (r: Option<&'a Json>)
    ensures
        match r {
            Option::Some(v) => spec_lookup(es@, key@) == Some(*v),
            Option::None => spec_lookup(es@, key@) is None,
        },
{
    let n = es.len();
    let mut i: usize = 0;
    while i < n
        invariant
            n == es.len(),
            i <= n,
            forall|k: int| 0 <= k < i ==> es@[k].0@ != key@,
        decreases n - i,
    {
        if str_eq(es[i].0.as_str(), key) {
            proof {
                lemma_lookup_skip(es@, key@, i as int);
                assert(es@.skip(i as int)[0] == es@[i as int]);
            }
            return Some(&es[i].1);
        }
        i += 1;
    }
    proof {
        lemma_lookup_skip(es@, key@, n as int);
    }
    None
}

/// Finds an optional field: absent and `null` both come back as `None`.
pub fn opt_field<'a>(es: &'a Vec<(String, Json)>, key: &str) -> (r: Option<&'a Json>)
    ensures
        match r {
            Option::Some(v) => spec_opt(es@, key@) == Some(*v),
            Option::None => spec_opt(es@, key@) is None,
        },
{
    match lookup(es, key) {
        Option::None => None,
        Option::Some(v) => match v {
            Json::Null => None,
            _ => Some(v),
        },
    }
}

} // verus!
