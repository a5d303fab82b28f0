//! The leaf records of a forecast document: weather descriptors, the
//! one-key precipitation object, and the daily temperature groups. Each
//! decode is all-or-nothing: the first failing field aborts the record.

use vstd::prelude::*;
use crate::condition::{decode_main, spec_main_of, Main};
use crate::error::{at_field, spec_at_field, DecodeError, ErrView};
use crate::fields::{
    req_i64, req_num, req_string, spec_req_i64, spec_req_num, spec_req_string,
};
use crate::json::{Json, Number};

verus! {

/// One weather descriptor: condition id, category, free text, icon id.
#[derive(Debug, Clone)]
pub struct WeatherElement {
    /// Weather condition id
    pub id: i64,
    /// Group of weather parameters (Rain, Snow, Extreme, etc.)
    pub main: Main,
    /// Weather condition within the group.
    pub description: String,
    /// Weather icon id.
    pub icon: String,
}

/// The category the `main` field of a descriptor decodes to: it must be a
/// string naming one of the closed vocabulary.
pub open spec fn spec_req_main(es: Seq<(String, Json)>, key: Seq<char>) -> Result<Main, ErrView> {
    match spec_req_string(es, key) {
        Result::Err(e) => Err(e),
        Result::Ok(s) => match spec_main_of(s) {
            Option::Some(m) => Ok(m),
            Option::None => Err(ErrView::UnrecognizedEnum { value: s }),
        },
    }
}

/// The error a weather descriptor decodes to, or `None` when accepted.
pub open spec fn spec_weather_element_err(j: Json) -> Option<ErrView> {
    match j {
        Json::Object(es) => {
            if spec_req_i64(es@, "id"@) is Err {
                Some(spec_req_i64(es@, "id"@)->Err_0)
            } else if spec_req_main(es@, "main"@) is Err {
                Some(spec_req_main(es@, "main"@)->Err_0)
            } else if spec_req_string(es@, "description"@) is Err {
                Some(spec_req_string(es@, "description"@)->Err_0)
            } else if spec_req_string(es@, "icon"@) is Err {
                Some(spec_req_string(es@, "icon"@)->Err_0)
            } else {
                None
            }
        },
        _ => Some(ErrView::TypeMismatch { field: Seq::empty(), expected: "an object"@ }),
    }
}

/// How a decoded descriptor relates to the accepted document.
pub open spec fn weather_element_matches(w: WeatherElement, j: Json) -> bool {
    &&& j matches Json::Object(es)
    &&& spec_req_i64(es@, "id"@) == Ok::<int, ErrView>(w.id as int)
    &&& spec_req_main(es@, "main"@) == Ok::<Main, ErrView>(w.main)
    &&& spec_req_string(es@, "description"@) == Ok::<Seq<char>, ErrView>(w.description@)
    &&& spec_req_string(es@, "icon"@) == Ok::<Seq<char>, ErrView>(w.icon@)
}

/// Decodes one weather descriptor.
pub fn decode_weather_element(j: &Json) -> (r: Result<WeatherElement, DecodeError>)
    ensures
        match r {
            Result::Ok(w) => spec_weather_element_err(*j) is None && weather_element_matches(
                w,
                *j,
            ),
            Result::Err(e) => spec_weather_element_err(*j) == Some(e@),
        },
{
    let es = match j {
        Json::Object(es) => es,
        _ => {
            return Err(
                DecodeError::TypeMismatch {
                    field: String::new(),
                    expected: "an object".to_owned(),
                },
            );
        },
    };
    let id = match req_i64(es, "id") {
        Result::Ok(v) => v,
        Result::Err(e) => {
            return Err(e);
        },
    };
    let main_name = match req_string(es, "main") {
        Result::Ok(s) => s,
        Result::Err(e) => {
            return Err(e);
        },
    };
    let main = match decode_main(main_name.as_str()) {
        Result::Ok(m) => m,
        Result::Err(e) => {
            return Err(e);
        },
    };
    let description = match req_string(es, "description") {
        Result::Ok(s) => s,
        Result::Err(e) => {
            return Err(e);
        },
    };
    let icon = match req_string(es, "icon") {
        Result::Ok(s) => s,
        Result::Err(e) => {
            return Err(e);
        },
    };
    Ok(WeatherElement { id, main, description, icon })
}

/// The error a sequence of weather descriptors decodes to: the first
/// failing element's, in order.
pub open spec fn spec_weather_vec_err(s: Seq<Json>) -> Option<ErrView>
    decreases s.len(),
{
    if s.len() == 0 {
        None
    } else {
        match spec_weather_element_err(s[0]) {
            Option::Some(e) => Some(e),
            Option::None => spec_weather_vec_err(s.skip(1)),
        }
    }
}

pub proof fn lemma_weather_vec_err_skip(s: Seq<Json>, i: int)
    requires
        0 <= i <= s.len(),
        forall|k: int| 0 <= k < i ==> spec_weather_element_err(s[k]) is None,
    ensures
        spec_weather_vec_err(s) == spec_weather_vec_err(s.skip(i)),
    decreases i,
{
    if i == 0 {
        assert(s.skip(0) =~= s);
    } else {
        lemma_weather_vec_err_skip(s, i - 1);
        assert(s.skip(i - 1)[0] == s[i - 1]);
        assert(s.skip(i - 1).skip(1) =~= s.skip(i));
    }
}

/// How a decoded descriptor sequence relates to the accepted array:
/// element by element, order kept.
pub open spec fn weather_vec_matches(ws: Seq<WeatherElement>, s: Seq<Json>) -> bool {
    &&& ws.len() == s.len()
    &&& forall|k: int|
        0 <= k < s.len() ==> weather_element_matches(#[trigger] ws[k], s[k])
}

/// Decodes an ordered sequence of weather descriptors.
pub fn decode_weather_vec(arr: &Vec<Json>) -> (r: Result<Vec<WeatherElement>, DecodeError>)
    ensures
        match r {
            Result::Ok(ws) => spec_weather_vec_err(arr@) is None && weather_vec_matches(ws@, arr@),
            Result::Err(e) => spec_weather_vec_err(arr@) == Some(e@),
        },
{
    let mut out: Vec<WeatherElement> = Vec::new();
    let n = arr.len();
    let mut i: usize = 0;
    while i < n
        invariant
            n == arr.len(),
            i <= n,
            out@.len() == i,
            forall|k: int| 0 <= k < i ==> spec_weather_element_err(arr@[k]) is None,
            forall|k: int| 0 <= k < i ==> weather_element_matches(#[trigger] out@[k], arr@[k]),
        decreases n - i,
    {
        match decode_weather_element(&arr[i]) {
            Result::Ok(w) => out.push(w),
            Result::Err(e) => {
                proof {
                    lemma_weather_vec_err_skip(arr@, i as int);
                    assert(arr@.skip(i as int)[0] == arr@[i as int]);
                }
                return Err(e);
            },
        }
        i += 1;
    }
    proof {
        lemma_weather_vec_err_skip(arr@, n as int);
    }
    Ok(out)
}

/// Accumulated precipitation, wrapped by the wire format in a one-key
/// object whose key `1h` is not an identifier.
#[derive(Debug, Clone, Copy, PartialEq, Eq, Structural)]
pub struct Precipitation {
    /// Volume for the last hour, mm.
    pub one_hour: Number,
}

/// The error a precipitation object decodes to, or `None` when accepted.
pub open spec fn spec_precip_err(j: Json) -> Option<ErrView> {
    match j {
        Json::Object(es) => match spec_req_num(es@, "1h"@) {
            Result::Err(e) => Some(e),
            Result::Ok(_) => None,
        },
        _ => Some(ErrView::TypeMismatch { field: Seq::empty(), expected: "an object"@ }),
    }
}

/// How a decoded precipitation record relates to the accepted document.
pub open spec fn precip_matches(p: Precipitation, j: Json) -> bool {
    &&& j matches Json::Object(es)
    &&& spec_req_num(es@, "1h"@) == Ok::<Number, ErrView>(p.one_hour)
}

/// Decodes the nested one-key precipitation object.
pub fn decode_precipitation(j: &Json) -> (r: Result<Precipitation, DecodeError>)
    ensures
        match r {
            Result::Ok(p) => spec_precip_err(*j) is None && precip_matches(p, *j),
            Result::Err(e) => spec_precip_err(*j) == Some(e@),
        },
{
    let es = match j {
        Json::Object(es) => es,
        _ => {
            return Err(
                DecodeError::TypeMismatch {
                    field: String::new(),
                    expected: "an object".to_owned(),
                },
            );
        },
    };
    let one_hour = match req_num(es, "1h") {
        Result::Ok(n) => n,
        Result::Err(e) => {
            return Err(e);
        },
    };
    Ok(Precipitation { one_hour })
}

/// An optional nested precipitation field: absent or `null` is "not
/// present"; a present value must decode, its object-level type mismatch
/// attributed to the field.
pub open spec fn spec_opt_precip_err(es: Seq<(String, Json)>, key: Seq<char>) -> Option<ErrView> {
    match crate::json::spec_opt(es, key) {
        Option::None => None,
        Option::Some(v) => match spec_precip_err(v) {
            Option::Some(e) => Some(spec_at_field(e, key)),
            Option::None => None,
        },
    }
}

/// How a decoded optional precipitation field relates to the document.
pub open spec fn opt_precip_matches(
    p: Option<Precipitation>,
    es: Seq<(String, Json)>,
    key: Seq<char>,
) -> bool {
    match p {
        Option::None => crate::json::spec_opt(es, key) is None,
        Option::Some(p) => crate::json::spec_opt(es, key) matches Some(v) && precip_matches(p, v),
    }
}

/// Reads an optional nested precipitation field.
pub fn opt_precip(es: &Vec<(String, Json)>, key: &str) -> (r: Result<
    Option<Precipitation>,
    DecodeError,
>)
    ensures
        match r {
            Result::Ok(p) => spec_opt_precip_err(es@, key@) is None && opt_precip_matches(
                p,
                es@,
                key@,
            ),
            Result::Err(e) => spec_opt_precip_err(es@, key@) == Some(e@),
        },
{
    match crate::json::opt_field(es, key) {
        Option::None => Ok(None),
        Option::Some(v) => match decode_precipitation(v) {
            Result::Ok(p) => Ok(Some(p)),
            Result::Err(e) => Err(at_field(e, key)),
        },
    }
}

/// Morning / day / evening / night / min / max temperatures of one day.
#[derive(Debug, Clone, Copy, PartialEq, Eq, Structural)]
pub struct DailyTemperature {
    /// Morning temperature.
    pub morn: Number,
    /// Day temperature.
    pub day: Number,
    /// Evening temperature.
    pub eve: Number,
    /// Night temperature.
    pub night: Number,
    /// Min daily temperature.
    pub min: Number,
    /// Max daily temperature.
    pub max: Number,
}

/// The error a daily temperature group decodes to, or `None` when accepted.
pub open spec fn spec_daily_temp_err(j: Json) -> Option<ErrView> {
    match j {
        Json::Object(es) => {
            if spec_req_num(es@, "morn"@) is Err {
                Some(spec_req_num(es@, "morn"@)->Err_0)
            } else if spec_req_num(es@, "day"@) is Err {
                Some(spec_req_num(es@, "day"@)->Err_0)
            } else if spec_req_num(es@, "eve"@) is Err {
                Some(spec_req_num(es@, "eve"@)->Err_0)
            } else if spec_req_num(es@, "night"@) is Err {
                Some(spec_req_num(es@, "night"@)->Err_0)
            } else if spec_req_num(es@, "min"@) is Err {
                Some(spec_req_num(es@, "min"@)->Err_0)
            } else if spec_req_num(es@, "max"@) is Err {
                Some(spec_req_num(es@, "max"@)->Err_0)
            } else {
                None
            }
        },
        _ => Some(ErrView::TypeMismatch { field: Seq::empty(), expected: "an object"@ }),
    }
}

/// How a decoded daily temperature group relates to the document.
pub open spec fn daily_temp_matches(t: DailyTemperature, j: Json) -> bool {
    &&& j matches Json::Object(es)
    &&& spec_req_num(es@, "morn"@) == Ok::<Number, ErrView>(t.morn)
    &&& spec_req_num(es@, "day"@) == Ok::<Number, ErrView>(t.day)
    &&& spec_req_num(es@, "eve"@) == Ok::<Number, ErrView>(t.eve)
    &&& spec_req_num(es@, "night"@) == Ok::<Number, ErrView>(t.night)
    &&& spec_req_num(es@, "min"@) == Ok::<Number, ErrView>(t.min)
    &&& spec_req_num(es@, "max"@) == Ok::<Number, ErrView>(t.max)
}

/// Decodes a daily temperature group.
pub fn decode_daily_temperature(j: &Json) -> (r: Result<DailyTemperature, DecodeError>)
    ensures
        match r {
            Result::Ok(t) => spec_daily_temp_err(*j) is None && daily_temp_matches(t, *j),
            Result::Err(e) => spec_daily_temp_err(*j) == Some(e@),
        },
{
    let es = match j {
        Json::Object(es) => es,
        _ => {
            return Err(
                DecodeError::TypeMismatch {
                    field: String::new(),
                    expected: "an object".to_owned(),
                },
            );
        },
    };
    let morn = match req_num(es, "morn") {
        Result::Ok(n) => n,
        Result::Err(e) => {
            return Err(e);
        },
    };
    let day = match req_num(es, "day") {
        Result::Ok(n) => n,
        Result::Err(e) => {
            return Err(e);
        },
    };
    let eve = match req_num(es, "eve") {
        Result::Ok(n) => n,
        Result::Err(e) => {
            return Err(e);
        },
    };
    let night = match req_num(es, "night") {
        Result::Ok(n) => n,
        Result::Err(e) => {
            return Err(e);
        },
    };
    let min = match req_num(es, "min") {
        Result::Ok(n) => n,
        Result::Err(e) => {
            return Err(e);
        },
    };
    let max = match req_num(es, "max") {
        Result::Ok(n) => n,
        Result::Err(e) => {
            return Err(e);
        },
    };
    Ok(DailyTemperature { morn, day, eve, night, min, max })
}

/// Morning / day / evening / night perceived temperatures — no min/max.
#[derive(Debug, Clone, Copy, PartialEq, Eq, Structural)]
pub struct DailyFeelsLikeTemperature {
    /// Morning temperature.
    pub morn: Number,
    /// Day temperature.
    pub day: Number,
    /// Evening temperature.
    pub eve: Number,
    /// Night temperature.
    pub night: Number,
}

/// The error a perceived-temperature group decodes to, or `None` when
/// accepted.
pub open spec fn spec_daily_feels_err(j: Json) -> Option<ErrView> {
    match j {
        Json::Object(es) => {
            if spec_req_num(es@, "morn"@) is Err {
                Some(spec_req_num(es@, "morn"@)->Err_0)
            } else if spec_req_num(es@, "day"@) is Err {
                Some(spec_req_num(es@, "day"@)->Err_0)
            } else if spec_req_num(es@, "eve"@) is Err {
                Some(spec_req_num(es@, "eve"@)->Err_0)
            } else if spec_req_num(es@, "night"@) is Err {
                Some(spec_req_num(es@, "night"@)->Err_0)
            } else {
                None
            }
        },
        _ => Some(ErrView::TypeMismatch { field: Seq::empty(), expected: "an object"@ }),
    }
}

/// How a decoded perceived-temperature group relates to the document.
pub open spec fn daily_feels_matches(t: DailyFeelsLikeTemperature, j: Json) -> bool {
    &&& j matches Json::Object(es)
    &&& spec_req_num(es@, "morn"@) == Ok::<Number, ErrView>(t.morn)
    &&& spec_req_num(es@, "day"@) == Ok::<Number, ErrView>(t.day)
    &&& spec_req_num(es@, "eve"@) == Ok::<Number, ErrView>(t.eve)
    &&& spec_req_num(es@, "night"@) == Ok::<Number, ErrView>(t.night)
}

/// Decodes a perceived-temperature group.
pub fn decode_daily_feels_like(j: &Json) -> (r: Result<DailyFeelsLikeTemperature, DecodeError>)
    ensures
        match r {
            Result::Ok(t) => spec_daily_feels_err(*j) is None && daily_feels_matches(t, *j),
            Result::Err(e) => spec_daily_feels_err(*j) == Some(e@),
        },
{
    let es = match j {
        Json::Object(es) => es,
        _ => {
            return Err(
                DecodeError::TypeMismatch {
                    field: String::new(),
                    expected: "an object".to_owned(),
                },
            );
        },
    };
    let morn = match req_num(es, "morn") {
        Result::Ok(n) => n,
        Result::Err(e) => {
            return Err(e);
        },
    };
    let day = match req_num(es, "day") {
        Result::Ok(n) => n,
        Result::Err(e) => {
            return Err(e);
        },
    };
    let eve = match req_num(es, "eve") {
        Result::Ok(n) => n,
        Result::Err(e) => {
            return Err(e);
        },
    };
    let night = match req_num(es, "night") {
        Result::Ok(n) => n,
        Result::Err(e) => {
            return Err(e);
        },
    };
    Ok(DailyFeelsLikeTemperature { morn, day, eve, night })
}

/// A required sequence-of-descriptors field.
pub open spec fn spec_req_weather_vec_err(es: Seq<(String, Json)>, key: Seq<char>) -> Option<
    ErrView,
> {
    match crate::json::spec_lookup(es, key) {
        Option::None => Some(ErrView::MissingField { field: key }),
        Option::Some(v) => match v {
            Json::Array(a) => spec_weather_vec_err(a@),
            _ => Some(ErrView::TypeMismatch { field: key, expected: "an array"@ }),
        },
    }
}

/// How a decoded descriptor sequence relates to its field.
pub open spec fn req_weather_vec_matches(
    ws: Seq<WeatherElement>,
    es: Seq<(String, Json)>,
    key: Seq<char>,
) -> bool {
    &&& crate::json::spec_lookup(es, key) matches Some(v)
    &&& v matches Json::Array(a) && weather_vec_matches(ws, a@)
}

/// Reads a required sequence-of-descriptors field.
pub fn req_weather_vec(es: &Vec<(String, Json)>, key: &str) -> (r: Result<
    Vec<WeatherElement>,
    DecodeError,
>)
    ensures
        match r {
            Result::Ok(ws) => spec_req_weather_vec_err(es@, key@) is None && req_weather_vec_matches(
                ws@,
                es@,
                key@,
            ),
            Result::Err(e) => spec_req_weather_vec_err(es@, key@) == Some(e@),
        },
{
    match crate::json::lookup(es, key) {
        Option::None => Err(DecodeError::MissingField { field: key.to_owned() }),
        Option::Some(v) => match v {
            Json::Array(a) => decode_weather_vec(a),
            _ => Err(
                DecodeError::TypeMismatch {
                    field: key.to_owned(),
                    expected: "an array".to_owned(),
                },
            ),
        },
    }
}

} // verus!
