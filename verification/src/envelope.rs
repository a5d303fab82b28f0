//! The error-envelope decoder.
//!
//! When the upstream API reports failure instead of a forecast, the body is
//! a two-field object `{cod, message}` whose `cod` is polymorphic over
//! string and number. Decoding preserves exactly which JSON token kind was
//! seen — a numeric string is never coerced to a number nor the reverse —
//! and the envelope re-encodes to the same two-field shape.

use vstd::prelude::*;
use vstd::string::StringExecFns;
use crate::error::{DecodeError, ErrView};
use crate::fields::{req_string, spec_req_string};
use crate::json::{lookup, spec_lookup, Json, Number};

verus! {

/// A closed choice between a textual and a numeric `cod`, matching the
/// exact JSON token kind observed.
#[derive(Debug, Clone)]
pub enum ErrorCode {
    String(String),
    Number(i32),
}

/// Mathematical image of an `ErrorCode`.
pub enum ErrorCodeView {
    Str(Seq<char>),
    Num(int),
}

impl View for ErrorCode {
    type V = ErrorCodeView;

    open spec fn view(&self) -> ErrorCodeView {
        match self {
            ErrorCode::String(s) => ErrorCodeView::Str(s@),
            ErrorCode::Number(n) => ErrorCodeView::Num(*n as int),
        }
    }
}

/// An upstream-reported failure: a successfully decoded value, distinct
/// from a decode error.
#[derive(Debug, Clone)]
pub struct OwmError {
    pub code: ErrorCode,
    pub message: String,
}

/// The error a `cod` token decodes to, or `None` when it is accepted.
pub open spec fn spec_cod_err(v: Json) -> Option<ErrView> {
    match v {
        Json::Str(_) => None,
        Json::Num(Number::Int(i)) => if i32::MIN <= i && i <= i32::MAX {
            None
        } else {
            Some(ErrView::OutOfRange { value: i as int })
        },
        Json::Num(Number::UInt(u)) => if u <= i32::MAX as u64 {
            None
        } else {
            Some(ErrView::OutOfRange { value: u as int })
        },
        _ => Some(
            ErrView::TypeMismatch { field: "cod"@, expected: "a string or an integer"@ },
        ),
    }
}

/// The code an accepted `cod` token decodes to: the variant follows the
/// token kind, a string stays textual and a number stays numeric.
pub open spec fn spec_cod_view(v: Json) -> ErrorCodeView {
    match v {
        Json::Str(s) => ErrorCodeView::Str(s@),
        Json::Num(Number::Int(i)) => ErrorCodeView::Num(i as int),
        Json::Num(Number::UInt(u)) => ErrorCodeView::Num(u as int),
        _ => ErrorCodeView::Num(0),
    }
}

/// The error an envelope document decodes to, or `None` when it is
/// accepted: it must be an object holding `cod` and a string `message`.
pub open spec fn spec_owm_error_err(j: Json) -> Option<ErrView> {
    match j {
        Json::Object(es) => match spec_lookup(es@, "cod"@) {
            Option::None => Some(ErrView::MissingField { field: "cod"@ }),
            Option::Some(cv) => match spec_cod_err(cv) {
                Option::Some(e) => Some(e),
                Option::None => match spec_req_string(es@, "message"@) {
                    Result::Err(e) => Some(e),
                    Result::Ok(_) => None,
                },
            },
        },
        _ => Some(ErrView::TypeMismatch { field: Seq::empty(), expected: "an object"@ }),
    }
}

/// How a decoded envelope relates to the accepted document.
pub open spec fn owm_error_matches(oe: OwmError, j: Json) -> bool {
    &&& j matches Json::Object(es)
    &&& spec_lookup(es@, "cod"@) matches Some(cv) && oe.code@ == spec_cod_view(cv)
    &&& spec_req_string(es@, "message"@) == Ok::<Seq<char>, ErrView>(oe.message@)
}

/// Decodes the two-field error envelope.
pub fn decode_owm_error(j: &Json) -> (r: Result<OwmError, DecodeError>)
    ensures
        match r {
            Result::Ok(oe) => spec_owm_error_err(*j) is None && owm_error_matches(oe, *j),
            Result::Err(e) => spec_owm_error_err(*j) == Some(e@),
        },
{
    let es = match j {
        Json::Object(es) => es,
        _ => {
            return Err(
                DecodeError::TypeMismatch {
                    field: String::new(),
                    expected: "an object".to_owned(),
                },
            );
        },
    };
    let code = match lookup(es, "cod") {
        Option::None => {
            return Err(DecodeError::MissingField { field: "cod".to_owned() });
        },
        Option::Some(v) => match v {
            Json::Str(s) => ErrorCode::String(s.clone()),
            Json::Num(Number::Int(i)) => {
                if i32::MIN as i64 <= *i && *i <= i32::MAX as i64 {
                    ErrorCode::Number(*i as i32)
                } else {
                    return Err(DecodeError::OutOfRange { value: *i as i128 });
                }
            },
            Json::Num(Number::UInt(u)) => {
                if *u <= i32::MAX as u64 {
                    ErrorCode::Number(*u as i32)
                } else {
                    return Err(DecodeError::OutOfRange { value: *u as i128 });
                }
            },
            _ => {
                return Err(
                    DecodeError::TypeMismatch {
                        field: "cod".to_owned(),
                        expected: "a string or an integer".to_owned(),
                    },
                );
            },
        },
    };
    let message = match req_string(es, "message") {
        Result::Ok(s) => s,
        Result::Err(e) => {
            return Err(e);
        },
    };
    Ok(OwmError { code, message })
}

/// How an encoded `cod` token relates to the code it came from: a textual
/// code becomes a string token, a numeric code a signed integer token.
pub open spec fn spec_cod_encoding(c: ErrorCode, v: Json) -> bool {
    match c {
        ErrorCode::String(s) => v matches Json::Str(t) && t@ == s@,
        ErrorCode::Number(n) => v == Json::Num(Number::Int(n as i64)),
    }
}

/// How an encoded envelope relates to the value it came from: the same
/// two-field shape the decoder accepts.
pub open spec fn spec_owm_error_encoding(e: OwmError, j: Json) -> bool {
    &&& j matches Json::Object(es)
    &&& es@.len() == 2
    &&& es@[0].0@ == "cod"@ && spec_cod_encoding(e.code, es@[0].1)
    &&& es@[1].0@ == "message"@
    &&& es@[1].1 matches Json::Str(m) && m@ == e.message@
}

/// Re-encodes an envelope as the two-field JSON shape it decodes from.
pub fn encode_owm_error(e: &OwmError) -> (j: Json)
    ensures
        spec_owm_error_encoding(*e, j),
{
    let cod = match &e.code {
        ErrorCode::String(s) => Json::Str(s.clone()),
        ErrorCode::Number(n) => Json::Num(Number::Int(*n as i64)),
    };
    let mut es: Vec<(String, Json)> = Vec::new();
    es.push(("cod".to_owned(), cod));
    es.push(("message".to_owned(), Json::Str(e.message.clone())));
    Json::Object(es)
}

/// Round trip: encoding an envelope and decoding the result reproduces the
/// original — in particular the JSON kind of `cod` survives, a textual code
/// comes back textual and a numeric code numeric.
pub proof fn lemma_owm_error_round_trip(e: OwmError, j: Json)
    requires
        spec_owm_error_encoding(e, j),
    ensures
        spec_owm_error_err(j) is None,
        forall|oe: OwmError| owm_error_matches(oe, j) ==> oe.code@ == e.code@ && oe.message@
            == e.message@,
{
    reveal_strlit("cod");
    reveal_strlit("message");
    let es = j->Object_0;
    assert("cod"@.len() == 3);
    assert("message"@.len() == 7);
    assert(spec_lookup(es@, "cod"@) == Some(es@[0].1));
    assert(es@[0].0@ != "message"@);
    assert(es@.skip(1)[0] == es@[1]);
    assert(es@.skip(1).skip(1).len() == 0);
    assert(spec_lookup(es@, "message"@) == spec_lookup(es@.skip(1), "message"@));
    assert(spec_lookup(es@, "message"@) == Some(es@[1].1));
}

/// Renders the code as the display contract asks: a textual value verbatim,
/// a numeric value in decimal.
pub open spec fn spec_code_display(c: ErrorCodeView) -> Seq<char> {
    match c {
        ErrorCodeView::Str(s) => s,
        ErrorCodeView::Num(n) => spec_i64_decimal(n),
    }
}

/// The decimal digit characters of `n`, most significant first.
pub open spec fn spec_udecimal(n: int) -> Seq<char>
    decreases n,
{
    if n < 10 {
        seq![spec_digit(n)]
    } else {
        spec_udecimal(n / 10).push(spec_digit(n % 10))
    }
}

/// The character of one decimal digit.
pub open spec fn spec_digit(d: int) -> char {
    if d == 0 {
        '0'
    } else if d == 1 {
        '1'
    } else if d == 2 {
        '2'
    } else if d == 3 {
        '3'
    } else if d == 4 {
        '4'
    } else if d == 5 {
        '5'
    } else if d == 6 {
        '6'
    } else if d == 7 {
        '7'
    } else if d == 8 {
        '8'
    } else {
        '9'
    }
}

/// The decimal rendering of an integer, `-`-prefixed when negative.
pub open spec fn spec_i64_decimal(n: int) -> Seq<char> {
    if n < 0 {
        seq!['-'] + spec_udecimal(-n)
    } else {
        spec_udecimal(n)
    }
}

/// Relies on std's `Display` for `i32` (via `format!`): the value's decimal
/// digits, prefixed with `-` when negative.
#[verifier::external_body]
fn i32_to_decimal(n: i32) -> (r: String)
    ensures
        r@ == spec_i64_decimal(n as int),
{
    format!("{}", n)
}

impl ErrorCode {
    /// Renders the code for display: text verbatim, a number in decimal.
    pub fn display_string(&self) -> (r: String)
        ensures
            r@ == spec_code_display(self@),
    {
        match self {
            ErrorCode::String(s) => s.clone(),
            ErrorCode::Number(n) => i32_to_decimal(*n),
        }
    }
}

impl OwmError {
    /// The single display line of an envelope; this exact format is part of
    /// the observable contract.
    pub open spec fn spec_display(&self) -> Seq<char> {
        "OWM error "@ + spec_code_display(self.code@) + ": "@ + self.message@
    }

    /// Renders `OWM error {code}: {message}`.
    pub fn display_string(&self) -> (r: String)
        ensures
            r@ == self.spec_display(),
    {
        let mut s = "OWM error ".to_owned();
        let c = self.code.display_string();
        s.append(c.as_str());
        s.append(": ");
        s.append(self.message.as_str());
        proof {
            assert(s@ =~= self.spec_display());
        }
        s
    }
}

} // verus!
