//! The epoch-second timestamp decoder.
//!
//! A timestamp field arrives as one integer-valued JSON number — signed or
//! unsigned, the serializer chooses — counting seconds since the Unix epoch.
//! Decoding yields a UTC instant exact to the second, or rejects the token:
//! an unsigned value above `i64::MAX` cannot be any signed epoch offset, and
//! a second count the underlying calendar representation cannot hold is out
//! of range — never clamped, never wrapped.

use vstd::prelude::*;
use crate::error::{DecodeError, ErrView};
use crate::json::{Json, Number};

verus! {

/// The smallest epoch second an `Instant` can hold (jiff's `Timestamp::MIN`).
pub const MIN_EPOCH_SECOND: i64 = -377705023201;

/// The largest epoch second an `Instant` can hold (jiff's `Timestamp::MAX`).
pub const MAX_EPOCH_SECOND: i64 = 253402207200;

/// The seconds the underlying calendar representation can hold.
pub open spec fn in_instant_range(s: int) -> bool {
    MIN_EPOCH_SECOND <= s && s <= MAX_EPOCH_SECOND
}

/// A point in time with second precision, normalized to UTC.
#[derive(Debug, Clone, Copy, PartialEq, Eq, Structural)]
pub struct Instant {
    seconds: i64,
}

impl View for Instant {
    type V = int;

    closed spec fn view(&self) -> int {
        self.seconds as int
    }
}

impl Instant {
    /// Every constructed `Instant` holds a second count in the valid range.
    pub open spec fn wf(&self) -> bool {
        in_instant_range(self@)
    }

    /// The count of seconds since the Unix epoch.
    pub fn as_second(&self) -> (s: i64)
        ensures
            s as int == self@,
    {
        self.seconds
    }
}

/// Relies on `jiff::Timestamp::from_second`, which succeeds exactly when its
/// argument lies in jiff's supported range
/// `-377705023201..=253402207200` (`Timestamp::MIN` to `Timestamp::MAX`).
#[verifier::external_body]
fn jiff_second_in_range(second: i64) -> (r: bool)
    ensures
        r == in_instant_range(second as int),
{
    jiff::Timestamp::from_second(second).is_ok()
}

/// The kind of JSON token a timestamp field expects.
pub open spec fn spec_timestamp_expected() -> Seq<char> {
    "a unix timestamp in seconds"@
}

/// The error a timestamp token decodes to, or `None` when it is accepted.
pub open spec fn spec_timestamp_err(j: Json) -> Option<ErrView> {
    match j {
        Json::Num(Number::Int(i)) => if in_instant_range(i as int) {
            None
        } else {
            Some(ErrView::OutOfRange { value: i as int })
        },
        Json::Num(Number::UInt(u)) => if in_instant_range(u as int) {
            None
        } else {
            Some(ErrView::OutOfRange { value: u as int })
        },
        _ => Some(
            ErrView::TypeMismatch {
                field: Seq::empty(),
                expected: spec_timestamp_expected(),
            },
        ),
    }
}

/// The epoch second an accepted timestamp token denotes.
pub open spec fn spec_timestamp_second(j: Json) -> int {
    match j {
        Json::Num(Number::Int(i)) => i as int,
        Json::Num(Number::UInt(u)) => u as int,
        _ => 0,
    }
}

/// Decodes one JSON token as epoch seconds into a UTC `Instant`.
pub fn deserialize(j: &Json) -> (r: Result<Instant, DecodeError>)
    ensures
        match r {
            Result::Ok(t) => spec_timestamp_err(*j) is None && t@ == spec_timestamp_second(*j)
                && t.wf(),
            Result::Err(e) => spec_timestamp_err(*j) == Some(e@),
        },
{
    match j {
        Json::Num(Number::Int(i)) => {
            if jiff_second_in_range(*i) {
                Ok(Instant { seconds: *i })
            } else {
                Err(DecodeError::OutOfRange { value: *i as i128 })
            }
        },
        Json::Num(Number::UInt(u)) => {
            if *u > i64::MAX as u64 {
                Err(DecodeError::OutOfRange { value: *u as i128 })
            } else if jiff_second_in_range(*u as i64) {
                Ok(Instant { seconds: *u as i64 })
            } else {
                Err(DecodeError::OutOfRange { value: *u as i128 })
            }
        },
        _ => Err(
            DecodeError::TypeMismatch {
                field: String::new(),
                expected: "a unix timestamp in seconds".to_owned(),
            },
        ),
    }
}

/// Re-encodes an `Instant` as the JSON token it decodes from: its epoch
/// second as a signed integer.
pub fn serialize(t: &Instant) -> (j: Json)
    ensures
        j matches Json::Num(n) && n matches Number::Int(s) && s as int == t@,
{
    Json::Num(Number::Int(t.seconds))
}

/// Round trip: any epoch second in the supported range, encoded as a signed
/// integer token, decodes back to exactly that second — so decoding a valid
/// timestamp and re-encoding it yields the same integer.
pub proof fn lemma_timestamp_round_trip(s: i64)
    requires
        in_instant_range(s as int),
    ensures
        spec_timestamp_err(Json::Num(Number::Int(s))) is None,
        spec_timestamp_second(Json::Num(Number::Int(s))) == s as int,
{
}

/// An unsigned token above `i64::MAX` always decodes to `OutOfRange` naming
/// the offending value — it is never truncated.
pub proof fn lemma_unsigned_overflow_rejected(u: u64)
    requires
        u > i64::MAX as u64,
    ensures
        spec_timestamp_err(Json::Num(Number::UInt(u))) == Some(
            ErrView::OutOfRange { value: u as int },
        ),
{
}

} // verus!
