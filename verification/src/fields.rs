//! Field-by-field access to a JSON object, with the decode rules every
//! record shares: a required key that is absent fails with `MissingField`;
//! a value of the wrong runtime kind fails with `TypeMismatch` naming the
//! field and the expected kind; an integer outside its field's range fails
//! with `OutOfRange` naming the value; an optional key that is absent or
//! `null` is "not present", never a default.

use vstd::prelude::*;
use crate::error::{spec_at_field, at_field, DecodeError, ErrView};
use crate::json::{spec_lookup, spec_opt, lookup, opt_field, Json, Number};
use crate::ts_seconds;
use crate::ts_seconds::Instant;

verus! {

/// What a numeric field accepts: any JSON number token, kept as it arrived.
pub open spec fn spec_conv_num(v: Json, key: Seq<char>) -> Result<Number, ErrView> {
    match v {
        Json::Num(n) => Ok(n),
        _ => Err(ErrView::TypeMismatch { field: key, expected: "a number"@ }),
    }
}

/// What an unsigned integer field accepts: an integer token in `0..=max`.
pub open spec fn spec_conv_uint(v: Json, key: Seq<char>, max: int) -> Result<int, ErrView> {
    match v {
        Json::Num(Number::Int(i)) => if 0 <= i && i as int <= max {
            Ok(i as int)
        } else {
            Err(ErrView::OutOfRange { value: i as int })
        },
        Json::Num(Number::UInt(u)) => if u as int <= max {
            Ok(u as int)
        } else {
            Err(ErrView::OutOfRange { value: u as int })
        },
        _ => Err(ErrView::TypeMismatch { field: key, expected: "an integer"@ }),
    }
}

/// What a signed 64-bit integer field accepts.
pub open spec fn spec_conv_i64(v: Json, key: Seq<char>) -> Result<int, ErrView> {
    match v {
        Json::Num(Number::Int(i)) => Ok(i as int),
        Json::Num(Number::UInt(u)) => if u <= i64::MAX as u64 {
            Ok(u as int)
        } else {
            Err(ErrView::OutOfRange { value: u as int })
        },
        _ => Err(ErrView::TypeMismatch { field: key, expected: "an integer"@ }),
    }
}

/// What a string field accepts.
pub open spec fn spec_conv_string(v: Json, key: Seq<char>) -> Result<Seq<char>, ErrView> {
    match v {
        Json::Str(s) => Ok(s@),
        _ => Err(ErrView::TypeMismatch { field: key, expected: "a string"@ }),
    }
}

/// What an array field accepts.
pub open spec fn spec_conv_array(v: Json, key: Seq<char>) -> Result<Seq<Json>, ErrView> {
    match v {
        Json::Array(a) => Ok(a@),
        _ => Err(ErrView::TypeMismatch { field: key, expected: "an array"@ }),
    }
}

/// A required numeric field.
pub open spec fn spec_req_num(es: Seq<(String, Json)>, key: Seq<char>) -> Result<Number, ErrView> {
    match spec_lookup(es, key) {
        Option::None => Err(ErrView::MissingField { field: key }),
        Option::Some(v) => spec_conv_num(v, key),
    }
}

/// A required unsigned integer field bounded by `max`.
pub open spec fn spec_req_uint(es: Seq<(String, Json)>, key: Seq<char>, max: int) -> Result<
    int,
    ErrView,
> {
    match spec_lookup(es, key) {
        Option::None => Err(ErrView::MissingField { field: key }),
        Option::Some(v) => spec_conv_uint(v, key, max),
    }
}

/// A required signed 64-bit integer field.
pub open spec fn spec_req_i64(es: Seq<(String, Json)>, key: Seq<char>) -> Result<int, ErrView> {
    match spec_lookup(es, key) {
        Option::None => Err(ErrView::MissingField { field: key }),
        Option::Some(v) => spec_conv_i64(v, key),
    }
}

/// A required string field.
pub open spec fn spec_req_string(es: Seq<(String, Json)>, key: Seq<char>) -> Result<
    Seq<char>,
    ErrView,
> {
    match spec_lookup(es, key) {
        Option::None => Err(ErrView::MissingField { field: key }),
        Option::Some(v) => spec_conv_string(v, key),
    }
}

/// A required timestamp field, decoded by the epoch-second decoder; a type
/// mismatch it reports is attributed to this field.
pub open spec fn spec_req_instant(es: Seq<(String, Json)>, key: Seq<char>) -> Result<int, ErrView> {
    match spec_lookup(es, key) {
        Option::None => Err(ErrView::MissingField { field: key }),
        Option::Some(v) => match ts_seconds::spec_timestamp_err(v) {
            Option::Some(e) => Err(spec_at_field(e, key)),
            Option::None => Ok(ts_seconds::spec_timestamp_second(v)),
        },
    }
}

/// An optional numeric field: absent or `null` is `None`.
pub open spec fn spec_opt_num(es: Seq<(String, Json)>, key: Seq<char>) -> Result<
    Option<Number>,
    ErrView,
> {
    match spec_opt(es, key) {
        Option::None => Ok(None),
        Option::Some(v) => match spec_conv_num(v, key) {
            Result::Ok(n) => Ok(Some(n)),
            Result::Err(e) => Err(e),
        },
    }
}

/// An optional unsigned integer field bounded by `max`.
pub open spec fn spec_opt_uint(es: Seq<(String, Json)>, key: Seq<char>, max: int) -> Result<
    Option<int>,
    ErrView,
> {
    match spec_opt(es, key) {
        Option::None => Ok(None),
        Option::Some(v) => match spec_conv_uint(v, key, max) {
            Result::Ok(n) => Ok(Some(n)),
            Result::Err(e) => Err(e),
        },
    }
}

/// Reads a required numeric field.
pub fn req_num(es: &Vec<(String, Json)>, key: &str) -> (r: Result<Number, DecodeError>)
    ensures
        match r {
            Result::Ok(n) => spec_req_num(es@, key@) == Ok::<Number, ErrView>(n),
            Result::Err(e) => spec_req_num(es@, key@) == Err::<Number, ErrView>(e@),
        },
{
    match lookup(es, key) {
        Option::None => Err(DecodeError::MissingField { field: key.to_owned() }),
        Option::Some(v) => match v {
            Json::Num(n) => Ok(*n),
            _ => Err(
                DecodeError::TypeMismatch { field: key.to_owned(), expected: "a number".to_owned() },
            ),
        },
    }
}

/// Reads a required unsigned integer field bounded by `max`.
pub fn req_uint(es: &Vec<(String, Json)>, key: &str, max: u64) -> (r: Result<u64, DecodeError>)
    ensures
        match r {
            Result::Ok(v) => spec_req_uint(es@, key@, max as int) == Ok::<int, ErrView>(v as int)
                && v <= max,
            Result::Err(e) => spec_req_uint(es@, key@, max as int) == Err::<int, ErrView>(e@),
        },
{
    match lookup(es, key) {
        Option::None => Err(DecodeError::MissingField { field: key.to_owned() }),
        Option::Some(v) => match v {
            Json::Num(Number::Int(i)) => {
                if 0 <= *i && *i as u64 <= max {
                    Ok(*i as u64)
                } else {
                    Err(DecodeError::OutOfRange { value: *i as i128 })
                }
            },
            Json::Num(Number::UInt(u)) => {
                if *u <= max {
                    Ok(*u)
                } else {
                    Err(DecodeError::OutOfRange { value: *u as i128 })
                }
            },
            _ => Err(
                DecodeError::TypeMismatch {
                    field: key.to_owned(),
                    expected: "an integer".to_owned(),
                },
            ),
        },
    }
}

/// Reads a required signed 64-bit integer field.
pub fn req_i64(es: &Vec<(String, Json)>, key: &str) -> (r: Result<i64, DecodeError>)
    ensures
        match r {
            Result::Ok(v) => spec_req_i64(es@, key@) == Ok::<int, ErrView>(v as int),
            Result::Err(e) => spec_req_i64(es@, key@) == Err::<int, ErrView>(e@),
        },
{
    match lookup(es, key) {
        Option::None => Err(DecodeError::MissingField { field: key.to_owned() }),
        Option::Some(v) => match v {
            Json::Num(Number::Int(i)) => Ok(*i),
            Json::Num(Number::UInt(u)) => {
                if *u <= i64::MAX as u64 {
                    Ok(*u as i64)
                } else {
                    Err(DecodeError::OutOfRange { value: *u as i128 })
                }
            },
            _ => Err(
                DecodeError::TypeMismatch {
                    field: key.to_owned(),
                    expected: "an integer".to_owned(),
                },
            ),
        },
    }
}

/// Reads a required string field.
pub fn req_string(es: &Vec<(String, Json)>, key: &str) -> (r: Result<String, DecodeError>)
    ensures
        match r {
            Result::Ok(s) => spec_req_string(es@, key@) == Ok::<Seq<char>, ErrView>(s@),
            Result::Err(e) => spec_req_string(es@, key@) == Err::<Seq<char>, ErrView>(e@),
        },
{
    match lookup(es, key) {
        Option::None => Err(DecodeError::MissingField { field: key.to_owned() }),
        Option::Some(v) => match v {
            Json::Str(s) => Ok(s.clone()),
            _ => Err(
                DecodeError::TypeMismatch { field: key.to_owned(), expected: "a string".to_owned() },
            ),
        },
    }
}

/// Reads a required timestamp field.
pub fn req_instant(es: &Vec<(String, Json)>, key: &str) -> (r: Result<Instant, DecodeError>)
    ensures
        match r {
            Result::Ok(t) => spec_req_instant(es@, key@) == Ok::<int, ErrView>(t@) && t.wf(),
            Result::Err(e) => spec_req_instant(es@, key@) == Err::<int, ErrView>(e@),
        },
{
    match lookup(es, key) {
        Option::None => Err(DecodeError::MissingField { field: key.to_owned() }),
        Option::Some(v) => match ts_seconds::deserialize(v) {
            Result::Ok(t) => Ok(t),
            Result::Err(e) => Err(at_field(e, key)),
        },
    }
}

/// Reads an optional numeric field.
pub fn opt_num(es: &Vec<(String, Json)>, key: &str) -> (r: Result<Option<Number>, DecodeError>)
    ensures
        match r {
            Result::Ok(n) => spec_opt_num(es@, key@) == Ok::<Option<Number>, ErrView>(n),
            Result::Err(e) => spec_opt_num(es@, key@) == Err::<Option<Number>, ErrView>(e@),
        },
{
    match opt_field(es, key) {
        Option::None => Ok(None),
        Option::Some(v) => match v {
            Json::Num(n) => Ok(Some(*n)),
            _ => Err(
                DecodeError::TypeMismatch { field: key.to_owned(), expected: "a number".to_owned() },
            ),
        },
    }
}

/// Reads an optional unsigned integer field bounded by `max`.
pub fn opt_uint(es: &Vec<(String, Json)>, key: &str, max: u64) -> (r: Result<
    Option<u64>,
    DecodeError,
>)
    ensures
        match r {
            Result::Ok(o) => match o {
                Option::Some(v) => spec_opt_uint(es@, key@, max as int) == Ok::<
                    Option<int>,
                    ErrView,
                >(Some(v as int)) && v <= max,
                Option::None => spec_opt_uint(es@, key@, max as int) == Ok::<Option<int>, ErrView>(
                    None,
                ),
            },
            Result::Err(e) => spec_opt_uint(es@, key@, max as int) == Err::<Option<int>, ErrView>(
                e@,
            ),
        },
{
    match opt_field(es, key) {
        Option::None => Ok(None),
        Option::Some(v) => match v {
            Json::Num(Number::Int(i)) => {
                if 0 <= *i && *i as u64 <= max {
                    Ok(Some(*i as u64))
                } else {
                    Err(DecodeError::OutOfRange { value: *i as i128 })
                }
            },
            Json::Num(Number::UInt(u)) => {
                if *u <= max {
                    Ok(Some(*u))
                } else {
                    Err(DecodeError::OutOfRange { value: *u as i128 })
                }
            },
            _ => Err(
                DecodeError::TypeMismatch {
                    field: key.to_owned(),
                    expected: "an integer".to_owned(),
                },
            ),
        },
    }
}

} // verus!
