//! The timestamped forecast records: the current-conditions snapshot and
//! the minute, hour and day forecast entries, plus national weather alerts.
//! Every decode is a field-by-field structural mapping, all-or-nothing,
//! composing the timestamp, condition and leaf-record decoders.

use vstd::prelude::*;
use crate::error::{at_field, spec_at_field, DecodeError, ErrView};
use crate::fields::{
    opt_num, opt_uint, req_instant, req_num, req_string, req_uint, spec_opt_num, spec_opt_uint,
    spec_req_instant, spec_req_num, spec_req_string, spec_req_uint,
};
use crate::json::{lookup, spec_lookup, Json, Number};
use crate::records::{
    decode_daily_feels_like, decode_daily_temperature, opt_precip, opt_precip_matches,
    req_weather_vec, req_weather_vec_matches, spec_daily_feels_err, spec_daily_temp_err,
    spec_opt_precip_err, spec_req_weather_vec_err, daily_feels_matches, daily_temp_matches,
    DailyFeelsLikeTemperature, DailyTemperature, Precipitation, WeatherElement,
};
use crate::ts_seconds::Instant;

verus! {

/// One minute-forecast entry: a timestamp and a precipitation volume.
#[derive(Debug, Clone)]
pub struct Minutely {
    /// Time of the forecasted data, Unix, UTC
    pub dt: Instant,
    /// Precipitation volume, mm
    pub precipitation: Number,
}

/// The error a minute entry decodes to, or `None` when accepted.
pub open spec fn spec_minutely_err(j: Json) -> Option<ErrView> {
    match j {
        Json::Object(es) => {
            if spec_req_instant(es@, "dt"@) is Err {
                Some(spec_req_instant(es@, "dt"@)->Err_0)
            } else if spec_req_num(es@, "precipitation"@) is Err {
                Some(spec_req_num(es@, "precipitation"@)->Err_0)
            } else {
                None
            }
        },
        _ => Some(ErrView::TypeMismatch { field: Seq::empty(), expected: "an object"@ }),
    }
}

/// How a decoded minute entry relates to the accepted document.
pub open spec fn minutely_matches(m: Minutely, j: Json) -> bool {
    &&& j matches Json::Object(es)
    &&& spec_req_instant(es@, "dt"@) == Ok::<int, ErrView>(m.dt@) && m.dt.wf()
    &&& spec_req_num(es@, "precipitation"@) == Ok::<Number, ErrView>(m.precipitation)
}

/// Decodes one minute-forecast entry.
pub fn decode_minutely(j: &Json) -> (r: Result<Minutely, DecodeError>)
    ensures
        match r {
            Result::Ok(m) => spec_minutely_err(*j) is None && minutely_matches(m, *j),
            Result::Err(e) => spec_minutely_err(*j) == Some(e@),
        },
{
    let es = match j {
        Json::Object(es) => es,
        _ => {
            return Err(
                DecodeError::TypeMismatch {
                    field: String::new(),
                    expected: "an object".to_owned(),
                },
            );
        },
    };
    let dt = match req_instant(es, "dt") {
        Result::Ok(t) => t,
        Result::Err(e) => {
            return Err(e);
        },
    };
    let precipitation = match req_num(es, "precipitation") {
        Result::Ok(n) => n,
        Result::Err(e) => {
            return Err(e);
        },
    };
    Ok(Minutely { dt, precipitation })
}

/// The error a sequence of minute entries decodes to: the first failing
/// element's, in order.
pub open spec fn spec_minutely_vec_err(s: Seq<Json>) -> Option<ErrView>
    decreases s.len(),
{
    if s.len() == 0 {
        None
    } else {
        match spec_minutely_err(s[0]) {
            Option::Some(e) => Some(e),
            Option::None => spec_minutely_vec_err(s.skip(1)),
        }
    }
}

pub proof fn lemma_minutely_vec_err_skip(s: Seq<Json>, i: int)
    requires
        0 <= i <= s.len(),
        forall|k: int| 0 <= k < i ==> spec_minutely_err(s[k]) is None,
    ensures
        spec_minutely_vec_err(s) == spec_minutely_vec_err(s.skip(i)),
    decreases i,
{
    if i == 0 {
        assert(s.skip(0) =~= s);
    } else {
        lemma_minutely_vec_err_skip(s, i - 1);
        assert(s.skip(i - 1)[0] == s[i - 1]);
        assert(s.skip(i - 1).skip(1) =~= s.skip(i));
    }
}

/// How a decoded minute-entry sequence relates to the accepted array.
pub open spec fn minutely_vec_matches(ms: Seq<Minutely>, s: Seq<Json>) -> bool {
    &&& ms.len() == s.len()
    &&& forall|k: int| 0 <= k < s.len() ==> minutely_matches(#[trigger] ms[k], s[k])
}

/// Decodes an ordered sequence of minute-forecast entries.
pub fn decode_minutely_vec(arr: &Vec<Json>) -> (r: Result<Vec<Minutely>, DecodeError>)
    ensures
        match r {
            Result::Ok(ms) => spec_minutely_vec_err(arr@) is None && minutely_vec_matches(
                ms@,
                arr@,
            ),
            Result::Err(e) => spec_minutely_vec_err(arr@) == Some(e@),
        },
{
    let mut out: Vec<Minutely> = Vec::new();
    let n = arr.len();
    let mut i: usize = 0;
    while i < n
        invariant
            n == arr.len(),
            i <= n,
            out@.len() == i,
            forall|k: int| 0 <= k < i ==> spec_minutely_err(arr@[k]) is None,
            forall|k: int| 0 <= k < i ==> minutely_matches(#[trigger] out@[k], arr@[k]),
        decreases n - i,
    {
        match decode_minutely(&arr[i]) {
            Result::Ok(m) => out.push(m),
            Result::Err(e) => {
                proof {
                    lemma_minutely_vec_err_skip(arr@, i as int);
                    assert(arr@.skip(i as int)[0] == arr@[i as int]);
                }
                return Err(e);
            },
        }
        i += 1;
    }
    proof {
        lemma_minutely_vec_err_skip(arr@, n as int);
    }
    Ok(out)
}

/// The current-conditions snapshot.
#[derive(Debug, Clone)]
pub struct Current {
    /// Current time, unix, UTC
    pub dt: Instant,
    /// Sunrise time, unix, UTC
    pub sunrise: Instant,
    /// Sunset time, unix, UTC
    pub sunset: Instant,
    /// Temperature, in the upstream-chosen unit, passed through as given.
    pub temp: Number,
    /// Perceived temperature, passed through as given.
    pub feels_like: Number,
    /// Atmospheric pressure on the sea level, hPa
    pub pressure: u16,
    /// Humidity, %
    pub humidity: u8,
    /// Dew point, passed through as given.
    pub dew_point: Number,
    /// Cloudiness, %
    pub clouds: u8,
    /// Current UV index
    pub uvi: Number,
    /// Average visibility, metres
    pub visibility: Option<u16>,
    /// Wind speed, passed through as given.
    pub wind_speed: Number,
    /// (where available) Wind gust
    pub wind_gust: Option<Number>,
    /// Wind direction, degrees (meteorological)
    pub wind_deg: u16,
    /// (where available) Rain volume for last hour, mm
    pub rain: Option<Precipitation>,
    /// (where available) Snow volume for last hour, mm
    pub snow: Option<Precipitation>,
    /// The ordered weather descriptors.
    pub weather: Vec<WeatherElement>,
}

/// The error the fields of a current snapshot decode to, in declaration
/// order, or `None` when all are accepted.
pub open spec fn spec_current_fields_err(es: Seq<(String, Json)>) -> Option<ErrView> {
    if spec_req_instant(es, "dt"@) is Err {
        Some(spec_req_instant(es, "dt"@)->Err_0)
    } else if spec_req_instant(es, "sunrise"@) is Err {
        Some(spec_req_instant(es, "sunrise"@)->Err_0)
    } else if spec_req_instant(es, "sunset"@) is Err {
        Some(spec_req_instant(es, "sunset"@)->Err_0)
    } else if spec_req_num(es, "temp"@) is Err {
        Some(spec_req_num(es, "temp"@)->Err_0)
    } else if spec_req_num(es, "feels_like"@) is Err {
        Some(spec_req_num(es, "feels_like"@)->Err_0)
    } else if spec_req_uint(es, "pressure"@, u16::MAX as int) is Err {
        Some(spec_req_uint(es, "pressure"@, u16::MAX as int)->Err_0)
    } else if spec_req_uint(es, "humidity"@, u8::MAX as int) is Err {
        Some(spec_req_uint(es, "humidity"@, u8::MAX as int)->Err_0)
    } else if spec_req_num(es, "dew_point"@) is Err {
        Some(spec_req_num(es, "dew_point"@)->Err_0)
    } else if spec_req_uint(es, "clouds"@, u8::MAX as int) is Err {
        Some(spec_req_uint(es, "clouds"@, u8::MAX as int)->Err_0)
    } else if spec_req_num(es, "uvi"@) is Err {
        Some(spec_req_num(es, "uvi"@)->Err_0)
    } else if spec_opt_uint(es, "visibility"@, u16::MAX as int) is Err {
        Some(spec_opt_uint(es, "visibility"@, u16::MAX as int)->Err_0)
    } else if spec_req_num(es, "wind_speed"@) is Err {
        Some(spec_req_num(es, "wind_speed"@)->Err_0)
    } else if spec_opt_num(es, "wind_gust"@) is Err {
        Some(spec_opt_num(es, "wind_gust"@)->Err_0)
    } else if spec_req_uint(es, "wind_deg"@, u16::MAX as int) is Err {
        Some(spec_req_uint(es, "wind_deg"@, u16::MAX as int)->Err_0)
    } else if spec_opt_precip_err(es, "rain"@) is Some {
        spec_opt_precip_err(es, "rain"@)
    } else if spec_opt_precip_err(es, "snow"@) is Some {
        spec_opt_precip_err(es, "snow"@)
    } else if spec_req_weather_vec_err(es, "weather"@) is Some {
        spec_req_weather_vec_err(es, "weather"@)
    } else {
        None
    }
}

/// The error a current snapshot decodes to, or `None` when accepted.
pub open spec fn spec_current_err(j: Json) -> Option<ErrView> {
    match j {
        Json::Object(es) => spec_current_fields_err(es@),
        _ => Some(ErrView::TypeMismatch { field: Seq::empty(), expected: "an object"@ }),
    }
}

/// How a decoded current snapshot relates to the accepted document.
pub open spec fn current_matches(c: Current, j: Json) -> bool {
    &&& j matches Json::Object(entries)
    &&& {
        let es = entries@;
        &&& spec_req_instant(es, "dt"@) == Ok::<int, ErrView>(c.dt@) && c.dt.wf()
        &&& spec_req_instant(es, "sunrise"@) == Ok::<int, ErrView>(c.sunrise@) && c.sunrise.wf()
        &&& spec_req_instant(es, "sunset"@) == Ok::<int, ErrView>(c.sunset@) && c.sunset.wf()
        &&& spec_req_num(es, "temp"@) == Ok::<Number, ErrView>(c.temp)
        &&& spec_req_num(es, "feels_like"@) == Ok::<Number, ErrView>(c.feels_like)
        &&& spec_req_uint(es, "pressure"@, u16::MAX as int) == Ok::<int, ErrView>(
            c.pressure as int,
        )
        &&& spec_req_uint(es, "humidity"@, u8::MAX as int) == Ok::<int, ErrView>(
            c.humidity as int,
        )
        &&& spec_req_num(es, "dew_point"@) == Ok::<Number, ErrView>(c.dew_point)
        &&& spec_req_uint(es, "clouds"@, u8::MAX as int) == Ok::<int, ErrView>(c.clouds as int)
        &&& spec_req_num(es, "uvi"@) == Ok::<Number, ErrView>(c.uvi)
        &&& match c.visibility {
            Option::None => spec_opt_uint(es, "visibility"@, u16::MAX as int) == Ok::<
                Option<int>,
                ErrView,
            >(None),
            Option::Some(v) => spec_opt_uint(es, "visibility"@, u16::MAX as int) == Ok::<
                Option<int>,
                ErrView,
            >(Some(v as int)),
        }
        &&& spec_req_num(es, "wind_speed"@) == Ok::<Number, ErrView>(c.wind_speed)
        &&& spec_opt_num(es, "wind_gust"@) == Ok::<Option<Number>, ErrView>(c.wind_gust)
        &&& spec_req_uint(es, "wind_deg"@, u16::MAX as int) == Ok::<int, ErrView>(
            c.wind_deg as int,
        )
        &&& opt_precip_matches(c.rain, es, "rain"@)
        &&& opt_precip_matches(c.snow, es, "snow"@)
        &&& req_weather_vec_matches(c.weather@, es, "weather"@)
    }
}

/// Decodes the current-conditions snapshot.
pub fn decode_current(j: &Json) -> (r: Result<Current, DecodeError>)
    ensures
        match r {
            Result::Ok(c) => spec_current_err(*j) is None && current_matches(c, *j),
            Result::Err(e) => spec_current_err(*j) == Some(e@),
        },
{
    let es = match j {
        Json::Object(es) => es,
        _ => {
            return Err(
                DecodeError::TypeMismatch {
                    field: String::new(),
                    expected: "an object".to_owned(),
                },
            );
        },
    };
    let dt = match req_instant(es, "dt") {
        Result::Ok(t) => t,
        Result::Err(e) => {
            return Err(e);
        },
    };
    let sunrise = match req_instant(es, "sunrise") {
        Result::Ok(t) => t,
        Result::Err(e) => {
            return Err(e);
        },
    };
    let sunset = match req_instant(es, "sunset") {
        Result::Ok(t) => t,
        Result::Err(e) => {
            return Err(e);
        },
    };
    let temp = match req_num(es, "temp") {
        Result::Ok(n) => n,
        Result::Err(e) => {
            return Err(e);
        },
    };
    let feels_like = match req_num(es, "feels_like") {
        Result::Ok(n) => n,
        Result::Err(e) => {
            return Err(e);
        },
    };
    let pressure = match req_uint(es, "pressure", u16::MAX as u64) {
        Result::Ok(v) => v as u16,
        Result::Err(e) => {
            return Err(e);
        },
    };
    let humidity = match req_uint(es, "humidity", u8::MAX as u64) {
        Result::Ok(v) => v as u8,
        Result::Err(e) => {
            return Err(e);
        },
    };
    let dew_point = match req_num(es, "dew_point") {
        Result::Ok(n) => n,
        Result::Err(e) => {
            return Err(e);
        },
    };
    let clouds = match req_uint(es, "clouds", u8::MAX as u64) {
        Result::Ok(v) => v as u8,
        Result::Err(e) => {
            return Err(e);
        },
    };
    let uvi = match req_num(es, "uvi") {
        Result::Ok(n) => n,
        Result::Err(e) => {
            return Err(e);
        },
    };
    let visibility = match opt_uint(es, "visibility", u16::MAX as u64) {
        Result::Ok(o) => match o {
            Option::Some(v) => Some(v as u16),
            Option::None => None,
        },
        Result::Err(e) => {
            return Err(e);
        },
    };
    let wind_speed = match req_num(es, "wind_speed") {
        Result::Ok(n) => n,
        Result::Err(e) => {
            return Err(e);
        },
    };
    let wind_gust = match opt_num(es, "wind_gust") {
        Result::Ok(o) => o,
        Result::Err(e) => {
            return Err(e);
        },
    };
    let wind_deg = match req_uint(es, "wind_deg", u16::MAX as u64) {
        Result::Ok(v) => v as u16,
        Result::Err(e) => {
            return Err(e);
        },
    };
    let rain = match opt_precip(es, "rain") {
        Result::Ok(p) => p,
        Result::Err(e) => {
            return Err(e);
        },
    };
    let snow = match opt_precip(es, "snow") {
        Result::Ok(p) => p,
        Result::Err(e) => {
            return Err(e);
        },
    };
    let weather = match req_weather_vec(es, "weather") {
        Result::Ok(ws) => ws,
        Result::Err(e) => {
            return Err(e);
        },
    };
    Ok(
        Current {
            dt,
            sunrise,
            sunset,
            temp,
            feels_like,
            pressure,
            humidity,
            dew_point,
            clouds,
            uvi,
            visibility,
            wind_speed,
            wind_gust,
            wind_deg,
            rain,
            snow,
            weather,
        },
    )
}

/// One hour-forecast entry: the numeric fields of the current snapshot,
/// without sunrise/sunset, plus the probability of precipitation.
#[derive(Debug, Clone)]
pub struct Hourly {
    /// Time of the forecasted data, Unix, UTC
    pub dt: Instant,
    /// Temperature, passed through as given.
    pub temp: Number,
    /// Perceived temperature, passed through as given.
    pub feels_like: Number,
    /// Atmospheric pressure on the sea level, hPa
    pub pressure: u16,
    /// Humidity, %
    pub humidity: u8,
    /// Dew point, passed through as given.
    pub dew_point: Number,
    /// UV index
    pub uvi: Number,
    /// Cloudiness, %
    pub clouds: u8,
    /// Average visibility, metres
    pub visibility: Option<u16>,
    /// Wind speed, passed through as given.
    pub wind_speed: Number,
    /// (where available) Wind gust
    pub wind_gust: Option<Number>,
    /// Wind direction, degrees (meteorological)
    pub wind_deg: u16,
    /// Probability of precipitation, between 0 and 1.
    pub pop: Number,
    /// (where available) Rain volume for last hour, mm
    pub rain: Option<Precipitation>,
    /// (where available) Snow volume for last hour, mm
    pub snow: Option<Precipitation>,
    /// The ordered weather descriptors.
    pub weather: Vec<WeatherElement>,
}

/// The error the fields of an hour entry decode to, in declaration order.
pub open spec fn spec_hourly_fields_err(es: Seq<(String, Json)>) -> Option<ErrView> {
    if spec_req_instant(es, "dt"@) is Err {
        Some(spec_req_instant(es, "dt"@)->Err_0)
    } else if spec_req_num(es, "temp"@) is Err {
        Some(spec_req_num(es, "temp"@)->Err_0)
    } else if spec_req_num(es, "feels_like"@) is Err {
        Some(spec_req_num(es, "feels_like"@)->Err_0)
    } else if spec_req_uint(es, "pressure"@, u16::MAX as int) is Err {
        Some(spec_req_uint(es, "pressure"@, u16::MAX as int)->Err_0)
    } else if spec_req_uint(es, "humidity"@, u8::MAX as int) is Err {
        Some(spec_req_uint(es, "humidity"@, u8::MAX as int)->Err_0)
    } else if spec_req_num(es, "dew_point"@) is Err {
        Some(spec_req_num(es, "dew_point"@)->Err_0)
    } else if spec_req_num(es, "uvi"@) is Err {
        Some(spec_req_num(es, "uvi"@)->Err_0)
    } else if spec_req_uint(es, "clouds"@, u8::MAX as int) is Err {
        Some(spec_req_uint(es, "clouds"@, u8::MAX as int)->Err_0)
    } else if spec_opt_uint(es, "visibility"@, u16::MAX as int) is Err {
        Some(spec_opt_uint(es, "visibility"@, u16::MAX as int)->Err_0)
    } else if spec_req_num(es, "wind_speed"@) is Err {
        Some(spec_req_num(es, "wind_speed"@)->Err_0)
    } else if spec_opt_num(es, "wind_gust"@) is Err {
        Some(spec_opt_num(es, "wind_gust"@)->Err_0)
    } else if spec_req_uint(es, "wind_deg"@, u16::MAX as int) is Err {
        Some(spec_req_uint(es, "wind_deg"@, u16::MAX as int)->Err_0)
    } else if spec_req_num(es, "pop"@) is Err {
        Some(spec_req_num(es, "pop"@)->Err_0)
    } else if spec_opt_precip_err(es, "rain"@) is Some {
        spec_opt_precip_err(es, "rain"@)
    } else if spec_opt_precip_err(es, "snow"@) is Some {
        spec_opt_precip_err(es, "snow"@)
    } else if spec_req_weather_vec_err(es, "weather"@) is Some {
        spec_req_weather_vec_err(es, "weather"@)
    } else {
        None
    }
}

/// The error an hour entry decodes to, or `None` when accepted.
pub open spec fn spec_hourly_err(j: Json) -> Option<ErrView> {
    match j {
        Json::Object(es) => spec_hourly_fields_err(es@),
        _ => Some(ErrView::TypeMismatch { field: Seq::empty(), expected: "an object"@ }),
    }
}

/// How a decoded hour entry relates to the accepted document.
pub open spec fn hourly_matches(h: Hourly, j: Json) -> bool {
    &&& j matches Json::Object(entries)
    &&& {
        let es = entries@;
        &&& spec_req_instant(es, "dt"@) == Ok::<int, ErrView>(h.dt@) && h.dt.wf()
        &&& spec_req_num(es, "temp"@) == Ok::<Number, ErrView>(h.temp)
        &&& spec_req_num(es, "feels_like"@) == Ok::<Number, ErrView>(h.feels_like)
        &&& spec_req_uint(es, "pressure"@, u16::MAX as int) == Ok::<int, ErrView>(
            h.pressure as int,
        )
        &&& spec_req_uint(es, "humidity"@, u8::MAX as int) == Ok::<int, ErrView>(
            h.humidity as int,
        )
        &&& spec_req_num(es, "dew_point"@) == Ok::<Number, ErrView>(h.dew_point)
        &&& spec_req_num(es, "uvi"@) == Ok::<Number, ErrView>(h.uvi)
        &&& spec_req_uint(es, "clouds"@, u8::MAX as int) == Ok::<int, ErrView>(h.clouds as int)
        &&& match h.visibility {
            Option::None => spec_opt_uint(es, "visibility"@, u16::MAX as int) == Ok::<
                Option<int>,
                ErrView,
            >(None),
            Option::Some(v) => spec_opt_uint(es, "visibility"@, u16::MAX as int) == Ok::<
                Option<int>,
                ErrView,
            >(Some(v as int)),
        }
        &&& spec_req_num(es, "wind_speed"@) == Ok::<Number, ErrView>(h.wind_speed)
        &&& spec_opt_num(es, "wind_gust"@) == Ok::<Option<Number>, ErrView>(h.wind_gust)
        &&& spec_req_uint(es, "wind_deg"@, u16::MAX as int) == Ok::<int, ErrView>(
            h.wind_deg as int,
        )
        &&& spec_req_num(es, "pop"@) == Ok::<Number, ErrView>(h.pop)
        &&& opt_precip_matches(h.rain, es, "rain"@)
        &&& opt_precip_matches(h.snow, es, "snow"@)
        &&& req_weather_vec_matches(h.weather@, es, "weather"@)
    }
}

/// Decodes one hour-forecast entry.
pub fn decode_hourly(j: &Json) -> (r: Result<Hourly, DecodeError>)
    ensures
        match r {
            Result::Ok(h) => spec_hourly_err(*j) is None && hourly_matches(h, *j),
            Result::Err(e) => spec_hourly_err(*j) == Some(e@),
        },
{
    let es = match j {
        Json::Object(es) => es,
        _ => {
            return Err(
                DecodeError::TypeMismatch {
                    field: String::new(),
                    expected: "an object".to_owned(),
                },
            );
        },
    };
    let dt = match req_instant(es, "dt") {
        Result::Ok(t) => t,
        Result::Err(e) => {
            return Err(e);
        },
    };
    let temp = match req_num(es, "temp") {
        Result::Ok(n) => n,
        Result::Err(e) => {
            return Err(e);
        },
    };
    let feels_like = match req_num(es, "feels_like") {
        Result::Ok(n) => n,
        Result::Err(e) => {
            return Err(e);
        },
    };
    let pressure = match req_uint(es, "pressure", u16::MAX as u64) {
        Result::Ok(v) => v as u16,
        Result::Err(e) => {
            return Err(e);
        },
    };
    let humidity = match req_uint(es, "humidity", u8::MAX as u64) {
        Result::Ok(v) => v as u8,
        Result::Err(e) => {
            return Err(e);
        },
    };
    let dew_point = match req_num(es, "dew_point") {
        Result::Ok(n) => n,
        Result::Err(e) => {
            return Err(e);
        },
    };
    let uvi = match req_num(es, "uvi") {
        Result::Ok(n) => n,
        Result::Err(e) => {
            return Err(e);
        },
    };
    let clouds = match req_uint(es, "clouds", u8::MAX as u64) {
        Result::Ok(v) => v as u8,
        Result::Err(e) => {
            return Err(e);
        },
    };
    let visibility = match opt_uint(es, "visibility", u16::MAX as u64) {
        Result::Ok(o) => match o {
            Option::Some(v) => Some(v as u16),
            Option::None => None,
        },
        Result::Err(e) => {
            return Err(e);
        },
    };
    let wind_speed = match req_num(es, "wind_speed") {
        Result::Ok(n) => n,
        Result::Err(e) => {
            return Err(e);
        },
    };
    let wind_gust = match opt_num(es, "wind_gust") {
        Result::Ok(o) => o,
        Result::Err(e) => {
            return Err(e);
        },
    };
    let wind_deg = match req_uint(es, "wind_deg", u16::MAX as u64) {
        Result::Ok(v) => v as u16,
        Result::Err(e) => {
            return Err(e);
        },
    };
    let pop = match req_num(es, "pop") {
        Result::Ok(n) => n,
        Result::Err(e) => {
            return Err(e);
        },
    };
    let rain = match opt_precip(es, "rain") {
        Result::Ok(p) => p,
        Result::Err(e) => {
            return Err(e);
        },
    };
    let snow = match opt_precip(es, "snow") {
        Result::Ok(p) => p,
        Result::Err(e) => {
            return Err(e);
        },
    };
    let weather = match req_weather_vec(es, "weather") {
        Result::Ok(ws) => ws,
        Result::Err(e) => {
            return Err(e);
        },
    };
    Ok(
        Hourly {
            dt,
            temp,
            feels_like,
            pressure,
            humidity,
            dew_point,
            uvi,
            clouds,
            visibility,
            wind_speed,
            wind_gust,
            wind_deg,
            pop,
            rain,
            snow,
            weather,
        },
    )
}

/// The error a sequence of hour entries decodes to: the first failing
/// element's, in order.
pub open spec fn spec_hourly_vec_err(s: Seq<Json>) -> Option<ErrView>
    decreases s.len(),
{
    if s.len() == 0 {
        None
    } else {
        match spec_hourly_err(s[0]) {
            Option::Some(e) => Some(e),
            Option::None => spec_hourly_vec_err(s.skip(1)),
        }
    }
}

pub proof fn lemma_hourly_vec_err_skip(s: Seq<Json>, i: int)
    requires
        0 <= i <= s.len(),
        forall|k: int| 0 <= k < i ==> spec_hourly_err(s[k]) is None,
    ensures
        spec_hourly_vec_err(s) == spec_hourly_vec_err(s.skip(i)),
    decreases i,
{
    if i == 0 {
        assert(s.skip(0) =~= s);
    } else {
        lemma_hourly_vec_err_skip(s, i - 1);
        assert(s.skip(i - 1)[0] == s[i - 1]);
        assert(s.skip(i - 1).skip(1) =~= s.skip(i));
    }
}

/// How a decoded hour-entry sequence relates to the accepted array.
pub open spec fn hourly_vec_matches(hs: Seq<Hourly>, s: Seq<Json>) -> bool {
    &&& hs.len() == s.len()
    &&& forall|k: int| 0 <= k < s.len() ==> hourly_matches(#[trigger] hs[k], s[k])
}

/// Decodes an ordered sequence of hour-forecast entries.
pub fn decode_hourly_vec(arr: &Vec<Json>) -> (r: Result<Vec<Hourly>, DecodeError>)
    ensures
        match r {
            Result::Ok(hs) => spec_hourly_vec_err(arr@) is None && hourly_vec_matches(hs@, arr@),
            Result::Err(e) => spec_hourly_vec_err(arr@) == Some(e@),
        },
{
    let mut out: Vec<Hourly> = Vec::new();
    let n = arr.len();
    let mut i: usize = 0;
    while i < n
        invariant
            n == arr.len(),
            i <= n,
            out@.len() == i,
            forall|k: int| 0 <= k < i ==> spec_hourly_err(arr@[k]) is None,
            forall|k: int| 0 <= k < i ==> hourly_matches(#[trigger] out@[k], arr@[k]),
        decreases n - i,
    {
        match decode_hourly(&arr[i]) {
            Result::Ok(h) => out.push(h),
            Result::Err(e) => {
                proof {
                    lemma_hourly_vec_err_skip(arr@, i as int);
                    assert(arr@.skip(i as int)[0] == arr@[i as int]);
                }
                return Err(e);
            },
        }
        i += 1;
    }
    proof {
        lemma_hourly_vec_err_skip(arr@, n as int);
    }
    Ok(out)
}

/// A required nested daily-temperature field; an object-level type
/// mismatch is attributed to the field.
pub open spec fn spec_req_daily_temp_err(es: Seq<(String, Json)>, key: Seq<char>) -> Option<
    ErrView,
> {
    match spec_lookup(es, key) {
        Option::None => Some(ErrView::MissingField { field: key }),
        Option::Some(v) => match spec_daily_temp_err(v) {
            Option::Some(e) => Some(spec_at_field(e, key)),
            Option::None => None,
        },
    }
}

/// How a decoded daily-temperature field relates to the document.
pub open spec fn req_daily_temp_matches(
    t: DailyTemperature,
    es: Seq<(String, Json)>,
    key: Seq<char>,
) -> bool {
    &&& spec_lookup(es, key) matches Some(v)
    &&& daily_temp_matches(t, v)
}

/// Reads a required nested daily-temperature field.
pub fn req_daily_temp(es: &Vec<(String, Json)>, key: &str) -> (r: Result<
    DailyTemperature,
    DecodeError,
>)
    ensures
        match r {
            Result::Ok(t) => spec_req_daily_temp_err(es@, key@) is None && req_daily_temp_matches(
                t,
                es@,
                key@,
            ),
            Result::Err(e) => spec_req_daily_temp_err(es@, key@) == Some(e@),
        },
{
    match lookup(es, key) {
        Option::None => Err(DecodeError::MissingField { field: key.to_owned() }),
        Option::Some(v) => match decode_daily_temperature(v) {
            Result::Ok(t) => Ok(t),
            Result::Err(e) => Err(at_field(e, key)),
        },
    }
}

/// A required nested perceived-temperature field.
pub open spec fn spec_req_daily_feels_err(es: Seq<(String, Json)>, key: Seq<char>) -> Option<
    ErrView,
> {
    match spec_lookup(es, key) {
        Option::None => Some(ErrView::MissingField { field: key }),
        Option::Some(v) => match spec_daily_feels_err(v) {
            Option::Some(e) => Some(spec_at_field(e, key)),
            Option::None => None,
        },
    }
}

/// How a decoded perceived-temperature field relates to the document.
pub open spec fn req_daily_feels_matches(
    t: DailyFeelsLikeTemperature,
    es: Seq<(String, Json)>,
    key: Seq<char>,
) -> bool {
    &&& spec_lookup(es, key) matches Some(v)
    &&& daily_feels_matches(t, v)
}

/// Reads a required nested perceived-temperature field.
pub fn req_daily_feels(es: &Vec<(String, Json)>, key: &str) -> (r: Result<
    DailyFeelsLikeTemperature,
    DecodeError,
>)
    ensures
        match r {
            Result::Ok(t) => spec_req_daily_feels_err(es@, key@) is None && req_daily_feels_matches(
                t,
                es@,
                key@,
            ),
            Result::Err(e) => spec_req_daily_feels_err(es@, key@) == Some(e@),
        },
{
    match lookup(es, key) {
        Option::None => Err(DecodeError::MissingField { field: key.to_owned() }),
        Option::Some(v) => match decode_daily_feels_like(v) {
            Result::Ok(t) => Ok(t),
            Result::Err(e) => Err(at_field(e, key)),
        },
    }
}

/// One day-forecast entry. Its rain and snow totals are flat optional
/// scalars, not a nested precipitation object — the wire format's own
/// asymmetry, preserved faithfully.
#[derive(Debug, Clone)]
pub struct Daily {
    /// Time of the forecasted data, Unix, UTC
    pub dt: Instant,
    /// Sunrise time, Unix, UTC
    pub sunrise: Instant,
    /// Sunset time, Unix, UTC
    pub sunset: Instant,
    /// The time of when the moon rises for the day, Unix, UTC
    pub moonrise: Instant,
    /// The time of when the moon sets for the day, Unix, UTC
    pub moonset: Instant,
    /// Moon phase, cyclic in `[0, 1]`.
    pub moon_phase: Number,
    /// Temperatures over the day.
    pub temp: DailyTemperature,
    /// Perceived temperatures over the day.
    pub feels_like: DailyFeelsLikeTemperature,
    /// Atmospheric pressure on the sea level, hPa
    pub pressure: u16,
    /// Humidity, %
    pub humidity: u8,
    /// Dew point, passed through as given.
    pub dew_point: Number,
    /// Wind speed, passed through as given.
    pub wind_speed: Number,
    /// (where available) Wind gust
    pub wind_gust: Option<Number>,
    /// Wind direction, degrees (meteorological)
    pub wind_deg: u16,
    /// Cloudiness, %
    pub clouds: u8,
    /// The maximum value of UV index for the day
    pub uvi: Number,
    /// Probability of precipitation, between 0 and 1.
    pub pop: Number,
    /// (where available) Precipitation volume, mm
    pub rain: Option<Number>,
    /// (where available) Snow volume, mm
    pub snow: Option<Number>,
    /// The ordered weather descriptors.
    pub weather: Vec<WeatherElement>,
}

/// The error the fields of a day entry decode to, in declaration order.
pub open spec fn spec_daily_fields_err(es: Seq<(String, Json)>) -> Option<ErrView> {
    if spec_req_instant(es, "dt"@) is Err {
        Some(spec_req_instant(es, "dt"@)->Err_0)
    } else if spec_req_instant(es, "sunrise"@) is Err {
        Some(spec_req_instant(es, "sunrise"@)->Err_0)
    } else if spec_req_instant(es, "sunset"@) is Err {
        Some(spec_req_instant(es, "sunset"@)->Err_0)
    } else if spec_req_instant(es, "moonrise"@) is Err {
        Some(spec_req_instant(es, "moonrise"@)->Err_0)
    } else if spec_req_instant(es, "moonset"@) is Err {
        Some(spec_req_instant(es, "moonset"@)->Err_0)
    } else if spec_req_num(es, "moon_phase"@) is Err {
        Some(spec_req_num(es, "moon_phase"@)->Err_0)
    } else if spec_req_daily_temp_err(es, "temp"@) is Some {
        spec_req_daily_temp_err(es, "temp"@)
    } else if spec_req_daily_feels_err(es, "feels_like"@) is Some {
        spec_req_daily_feels_err(es, "feels_like"@)
    } else if spec_req_uint(es, "pressure"@, u16::MAX as int) is Err {
        Some(spec_req_uint(es, "pressure"@, u16::MAX as int)->Err_0)
    } else if spec_req_uint(es, "humidity"@, u8::MAX as int) is Err {
        Some(spec_req_uint(es, "humidity"@, u8::MAX as int)->Err_0)
    } else if spec_req_num(es, "dew_point"@) is Err {
        Some(spec_req_num(es, "dew_point"@)->Err_0)
    } else if spec_req_num(es, "wind_speed"@) is Err {
        Some(spec_req_num(es, "wind_speed"@)->Err_0)
    } else if spec_opt_num(es, "wind_gust"@) is Err {
        Some(spec_opt_num(es, "wind_gust"@)->Err_0)
    } else if spec_req_uint(es, "wind_deg"@, u16::MAX as int) is Err {
        Some(spec_req_uint(es, "wind_deg"@, u16::MAX as int)->Err_0)
    } else if spec_req_uint(es, "clouds"@, u8::MAX as int) is Err {
        Some(spec_req_uint(es, "clouds"@, u8::MAX as int)->Err_0)
    } else if spec_req_num(es, "uvi"@) is Err {
        Some(spec_req_num(es, "uvi"@)->Err_0)
    } else if spec_req_num(es, "pop"@) is Err {
        Some(spec_req_num(es, "pop"@)->Err_0)
    } else if spec_opt_num(es, "rain"@) is Err {
        Some(spec_opt_num(es, "rain"@)->Err_0)
    } else if spec_opt_num(es, "snow"@) is Err {
        Some(spec_opt_num(es, "snow"@)->Err_0)
    } else if spec_req_weather_vec_err(es, "weather"@) is Some {
        spec_req_weather_vec_err(es, "weather"@)
    } else {
        None
    }
}

/// The error a day entry decodes to, or `None` when accepted.
pub open spec fn spec_daily_err(j: Json) -> Option<ErrView> {
    match j {
        Json::Object(es) => spec_daily_fields_err(es@),
        _ => Some(ErrView::TypeMismatch { field: Seq::empty(), expected: "an object"@ }),
    }
}

/// How a decoded day entry relates to the accepted document.
pub open spec fn daily_matches(d: Daily, j: Json) -> bool {
    &&& j matches Json::Object(entries)
    &&& {
        let es = entries@;
        &&& spec_req_instant(es, "dt"@) == Ok::<int, ErrView>(d.dt@) && d.dt.wf()
        &&& spec_req_instant(es, "sunrise"@) == Ok::<int, ErrView>(d.sunrise@) && d.sunrise.wf()
        &&& spec_req_instant(es, "sunset"@) == Ok::<int, ErrView>(d.sunset@) && d.sunset.wf()
        &&& spec_req_instant(es, "moonrise"@) == Ok::<int, ErrView>(d.moonrise@)
            && d.moonrise.wf()
        &&& spec_req_instant(es, "moonset"@) == Ok::<int, ErrView>(d.moonset@) && d.moonset.wf()
        &&& spec_req_num(es, "moon_phase"@) == Ok::<Number, ErrView>(d.moon_phase)
        &&& req_daily_temp_matches(d.temp, es, "temp"@)
        &&& req_daily_feels_matches(d.feels_like, es, "feels_like"@)
        &&& spec_req_uint(es, "pressure"@, u16::MAX as int) == Ok::<int, ErrView>(
            d.pressure as int,
        )
        &&& spec_req_uint(es, "humidity"@, u8::MAX as int) == Ok::<int, ErrView>(
            d.humidity as int,
        )
        &&& spec_req_num(es, "dew_point"@) == Ok::<Number, ErrView>(d.dew_point)
        &&& spec_req_num(es, "wind_speed"@) == Ok::<Number, ErrView>(d.wind_speed)
        &&& spec_opt_num(es, "wind_gust"@) == Ok::<Option<Number>, ErrView>(d.wind_gust)
        &&& spec_req_uint(es, "wind_deg"@, u16::MAX as int) == Ok::<int, ErrView>(
            d.wind_deg as int,
        )
        &&& spec_req_uint(es, "clouds"@, u8::MAX as int) == Ok::<int, ErrView>(d.clouds as int)
        &&& spec_req_num(es, "uvi"@) == Ok::<Number, ErrView>(d.uvi)
        &&& spec_req_num(es, "pop"@) == Ok::<Number, ErrView>(d.pop)
        &&& spec_opt_num(es, "rain"@) == Ok::<Option<Number>, ErrView>(d.rain)
        &&& spec_opt_num(es, "snow"@) == Ok::<Option<Number>, ErrView>(d.snow)
        &&& req_weather_vec_matches(d.weather@, es, "weather"@)
    }
}

/// Decodes one day-forecast entry.
pub fn decode_daily(j: &Json) -> (r: Result<Daily, DecodeError>)
    ensures
        match r {
            Result::Ok(d) => spec_daily_err(*j) is None && daily_matches(d, *j),
            Result::Err(e) => spec_daily_err(*j) == Some(e@),
        },
{
    let es = match j {
        Json::Object(es) => es,
        _ => {
            return Err(
                DecodeError::TypeMismatch {
                    field: String::new(),
                    expected: "an object".to_owned(),
                },
            );
        },
    };
    let dt = match req_instant(es, "dt") {
        Result::Ok(t) => t,
        Result::Err(e) => {
            return Err(e);
        },
    };
    let sunrise = match req_instant(es, "sunrise") {
        Result::Ok(t) => t,
        Result::Err(e) => {
            return Err(e);
        },
    };
    let sunset = match req_instant(es, "sunset") {
        Result::Ok(t) => t,
        Result::Err(e) => {
            return Err(e);
        },
    };
    let moonrise = match req_instant(es, "moonrise") {
        Result::Ok(t) => t,
        Result::Err(e) => {
            return Err(e);
        },
    };
    let moonset = match req_instant(es, "moonset") {
        Result::Ok(t) => t,
        Result::Err(e) => {
            return Err(e);
        },
    };
    let moon_phase = match req_num(es, "moon_phase") {
        Result::Ok(n) => n,
        Result::Err(e) => {
            return Err(e);
        },
    };
    let temp = match req_daily_temp(es, "temp") {
        Result::Ok(t) => t,
        Result::Err(e) => {
            return Err(e);
        },
    };
    let feels_like = match req_daily_feels(es, "feels_like") {
        Result::Ok(t) => t,
        Result::Err(e) => {
            return Err(e);
        },
    };
    let pressure = match req_uint(es, "pressure", u16::MAX as u64) {
        Result::Ok(v) => v as u16,
        Result::Err(e) => {
            return Err(e);
        },
    };
    let humidity = match req_uint(es, "humidity", u8::MAX as u64) {
        Result::Ok(v) => v as u8,
        Result::Err(e) => {
            return Err(e);
        },
    };
    let dew_point = match req_num(es, "dew_point") {
        Result::Ok(n) => n,
        Result::Err(e) => {
            return Err(e);
        },
    };
    let wind_speed = match req_num(es, "wind_speed") {
        Result::Ok(n) => n,
        Result::Err(e) => {
            return Err(e);
        },
    };
    let wind_gust = match opt_num(es, "wind_gust") {
        Result::Ok(o) => o,
        Result::Err(e) => {
            return Err(e);
        },
    };
    let wind_deg = match req_uint(es, "wind_deg", u16::MAX as u64) {
        Result::Ok(v) => v as u16,
        Result::Err(e) => {
            return Err(e);
        },
    };
    let clouds = match req_uint(es, "clouds", u8::MAX as u64) {
        Result::Ok(v) => v as u8,
        Result::Err(e) => {
            return Err(e);
        },
    };
    let uvi = match req_num(es, "uvi") {
        Result::Ok(n) => n,
        Result::Err(e) => {
            return Err(e);
        },
    };
    let pop = match req_num(es, "pop") {
        Result::Ok(n) => n,
        Result::Err(e) => {
            return Err(e);
        },
    };
    let rain = match opt_num(es, "rain") {
        Result::Ok(o) => o,
        Result::Err(e) => {
            return Err(e);
        },
    };
    let snow = match opt_num(es, "snow") {
        Result::Ok(o) => o,
        Result::Err(e) => {
            return Err(e);
        },
    };
    let weather = match req_weather_vec(es, "weather") {
        Result::Ok(ws) => ws,
        Result::Err(e) => {
            return Err(e);
        },
    };
    Ok(
        Daily {
            dt,
            sunrise,
            sunset,
            moonrise,
            moonset,
            moon_phase,
            temp,
            feels_like,
            pressure,
            humidity,
            dew_point,
            wind_speed,
            wind_gust,
            wind_deg,
            clouds,
            uvi,
            pop,
            rain,
            snow,
            weather,
        },
    )
}

/// The error a sequence of day entries decodes to: the first failing
/// element's, in order.
pub open spec fn spec_daily_vec_err(s: Seq<Json>) -> Option<ErrView>
    decreases s.len(),
{
    if s.len() == 0 {
        None
    } else {
        match spec_daily_err(s[0]) {
            Option::Some(e) => Some(e),
            Option::None => spec_daily_vec_err(s.skip(1)),
        }
    }
}

pub proof fn lemma_daily_vec_err_skip(s: Seq<Json>, i: int)
    requires
        0 <= i <= s.len(),
        forall|k: int| 0 <= k < i ==> spec_daily_err(s[k]) is None,
    ensures
        spec_daily_vec_err(s) == spec_daily_vec_err(s.skip(i)),
    decreases i,
{
    if i == 0 {
        assert(s.skip(0) =~= s);
    } else {
        lemma_daily_vec_err_skip(s, i - 1);
        assert(s.skip(i - 1)[0] == s[i - 1]);
        assert(s.skip(i - 1).skip(1) =~= s.skip(i));
    }
}

/// How a decoded day-entry sequence relates to the accepted array.
pub open spec fn daily_vec_matches(ds: Seq<Daily>, s: Seq<Json>) -> bool {
    &&& ds.len() == s.len()
    &&& forall|k: int| 0 <= k < s.len() ==> daily_matches(#[trigger] ds[k], s[k])
}

/// Decodes an ordered sequence of day-forecast entries.
pub fn decode_daily_vec(arr: &Vec<Json>) -> (r: Result<Vec<Daily>, DecodeError>)
    ensures
        match r {
            Result::Ok(ds) => spec_daily_vec_err(arr@) is None && daily_vec_matches(ds@, arr@),
            Result::Err(e) => spec_daily_vec_err(arr@) == Some(e@),
        },
{
    let mut out: Vec<Daily> = Vec::new();
    let n = arr.len();
    let mut i: usize = 0;
    while i < n
        invariant
            n == arr.len(),
            i <= n,
            out@.len() == i,
            forall|k: int| 0 <= k < i ==> spec_daily_err(arr@[k]) is None,
            forall|k: int| 0 <= k < i ==> daily_matches(#[trigger] out@[k], arr@[k]),
        decreases n - i,
    {
        match decode_daily(&arr[i]) {
            Result::Ok(d) => out.push(d),
            Result::Err(e) => {
                proof {
                    lemma_daily_vec_err_skip(arr@, i as int);
                    assert(arr@.skip(i as int)[0] == arr@[i as int]);
                }
                return Err(e);
            },
        }
        i += 1;
    }
    proof {
        lemma_daily_vec_err_skip(arr@, n as int);
    }
    Ok(out)
}

/// A national weather alert.
#[derive(Debug, Clone)]
pub struct Alert {
    /// Name of the alert source.
    pub sender_name: String,
    /// Alert event name
    pub event: String,
    /// Date and time of the start of the alert, Unix, UTC
    pub start: Instant,
    /// Date and time of the end of the alert, Unix, UTC
    pub end: Instant,
    /// Description of the alert
    pub description: String,
    /// Type of severe weather
    pub tags: Vec<String>,
}

/// The error a sequence of tag strings decodes to: every element must be a
/// string token.
pub open spec fn spec_tags_vec_err(s: Seq<Json>) -> Option<ErrView>
    decreases s.len(),
{
    if s.len() == 0 {
        None
    } else if !(s[0] is Str) {
        Some(ErrView::TypeMismatch { field: "tags"@, expected: "a string"@ })
    } else {
        spec_tags_vec_err(s.skip(1))
    }
}

pub proof fn lemma_tags_vec_err_skip(s: Seq<Json>, i: int)
    requires
        0 <= i <= s.len(),
        forall|k: int| 0 <= k < i ==> s[k] is Str,
    ensures
        spec_tags_vec_err(s) == spec_tags_vec_err(s.skip(i)),
    decreases i,
{
    if i == 0 {
        assert(s.skip(0) =~= s);
    } else {
        lemma_tags_vec_err_skip(s, i - 1);
        assert(s.skip(i - 1)[0] == s[i - 1]);
        assert(s.skip(i - 1).skip(1) =~= s.skip(i));
    }
}

/// How decoded tags relate to the accepted array: the same strings in the
/// same order.
pub open spec fn tags_vec_matches(ts: Seq<String>, s: Seq<Json>) -> bool {
    &&& ts.len() == s.len()
    &&& forall|k: int|
        0 <= k < s.len() ==> ((#[trigger] s[k]) matches Json::Str(x) && ts[k]@ == x@)
}

/// Decodes an ordered sequence of tag strings.
pub fn decode_tags_vec(arr: &Vec<Json>) -> (r: Result<Vec<String>, DecodeError>)
    ensures
        match r {
            Result::Ok(ts) => spec_tags_vec_err(arr@) is None && tags_vec_matches(ts@, arr@),
            Result::Err(e) => spec_tags_vec_err(arr@) == Some(e@),
        },
{
    let mut out: Vec<String> = Vec::new();
    let n = arr.len();
    let mut i: usize = 0;
    while i < n
        invariant
            n == arr.len(),
            i <= n,
            out@.len() == i,
            forall|k: int| 0 <= k < i ==> arr@[k] is Str,
            forall|k: int|
                0 <= k < i ==> ((#[trigger] arr@[k]) matches Json::Str(x) && out@[k]@ == x@),
        decreases n - i,
    {
        match &arr[i] {
            Json::Str(s) => out.push(s.clone()),
            _ => {
                proof {
                    lemma_tags_vec_err_skip(arr@, i as int);
                    assert(arr@.skip(i as int)[0] == arr@[i as int]);
                }
                return Err(
                    DecodeError::TypeMismatch {
                        field: "tags".to_owned(),
                        expected: "a string".to_owned(),
                    },
                );
            },
        }
        i += 1;
    }
    proof {
        lemma_tags_vec_err_skip(arr@, n as int);
    }
    Ok(out)
}

/// The required `tags` field: an array of strings.
pub open spec fn spec_req_tags_err(es: Seq<(String, Json)>, key: Seq<char>) -> Option<ErrView> {
    match spec_lookup(es, key) {
        Option::None => Some(ErrView::MissingField { field: key }),
        Option::Some(v) => match v {
            Json::Array(a) => spec_tags_vec_err(a@),
            _ => Some(ErrView::TypeMismatch { field: key, expected: "an array"@ }),
        },
    }
}

/// How decoded tags relate to their field.
pub open spec fn req_tags_matches(ts: Seq<String>, es: Seq<(String, Json)>, key: Seq<char>) -> bool {
    &&& spec_lookup(es, key) matches Some(v)
    &&& v matches Json::Array(a) && tags_vec_matches(ts, a@)
}

/// Reads the required `tags` field.
pub fn req_tags(es: &Vec<(String, Json)>, key: &str) -> (r: Result<Vec<String>, DecodeError>)
    ensures
        match r {
            Result::Ok(ts) => spec_req_tags_err(es@, key@) is None && req_tags_matches(
                ts@,
                es@,
                key@,
            ),
            Result::Err(e) => spec_req_tags_err(es@, key@) == Some(e@),
        },
{
    match lookup(es, key) {
        Option::None => Err(DecodeError::MissingField { field: key.to_owned() }),
        Option::Some(v) => match v {
            Json::Array(a) => decode_tags_vec(a),
            _ => Err(
                DecodeError::TypeMismatch {
                    field: key.to_owned(),
                    expected: "an array".to_owned(),
                },
            ),
        },
    }
}

/// The error the fields of an alert decode to, in declaration order.
pub open spec fn spec_alert_fields_err(es: Seq<(String, Json)>) -> Option<ErrView> {
    if spec_req_string(es, "sender_name"@) is Err {
        Some(spec_req_string(es, "sender_name"@)->Err_0)
    } else if spec_req_string(es, "event"@) is Err {
        Some(spec_req_string(es, "event"@)->Err_0)
    } else if spec_req_instant(es, "start"@) is Err {
        Some(spec_req_instant(es, "start"@)->Err_0)
    } else if spec_req_instant(es, "end"@) is Err {
        Some(spec_req_instant(es, "end"@)->Err_0)
    } else if spec_req_string(es, "description"@) is Err {
        Some(spec_req_string(es, "description"@)->Err_0)
    } else if spec_req_tags_err(es, "tags"@) is Some {
        spec_req_tags_err(es, "tags"@)
    } else {
        None
    }
}

/// The error an alert decodes to, or `None` when accepted.
pub open spec fn spec_alert_err(j: Json) -> Option<ErrView> {
    match j {
        Json::Object(es) => spec_alert_fields_err(es@),
        _ => Some(ErrView::TypeMismatch { field: Seq::empty(), expected: "an object"@ }),
    }
}

/// How a decoded alert relates to the accepted document.
pub open spec fn alert_matches(a: Alert, j: Json) -> bool {
    &&& j matches Json::Object(entries)
    &&& {
        let es = entries@;
        &&& spec_req_string(es, "sender_name"@) == Ok::<Seq<char>, ErrView>(a.sender_name@)
        &&& spec_req_string(es, "event"@) == Ok::<Seq<char>, ErrView>(a.event@)
        &&& spec_req_instant(es, "start"@) == Ok::<int, ErrView>(a.start@) && a.start.wf()
        &&& spec_req_instant(es, "end"@) == Ok::<int, ErrView>(a.end@) && a.end.wf()
        &&& spec_req_string(es, "description"@) == Ok::<Seq<char>, ErrView>(a.description@)
        &&& req_tags_matches(a.tags@, es, "tags"@)
    }
}

/// Decodes one alert.
pub fn decode_alert(j: &Json) -> (r: Result<Alert, DecodeError>)
    ensures
        match r {
            Result::Ok(a) => spec_alert_err(*j) is None && alert_matches(a, *j),
            Result::Err(e) => spec_alert_err(*j) == Some(e@),
        },
{
    let es = match j {
        Json::Object(es) => es,
        _ => {
            return Err(
                DecodeError::TypeMismatch {
                    field: String::new(),
                    expected: "an object".to_owned(),
                },
            );
        },
    };
    let sender_name = match req_string(es, "sender_name") {
        Result::Ok(s) => s,
        Result::Err(e) => {
            return Err(e);
        },
    };
    let event = match req_string(es, "event") {
        Result::Ok(s) => s,
        Result::Err(e) => {
            return Err(e);
        },
    };
    let start = match req_instant(es, "start") {
        Result::Ok(t) => t,
        Result::Err(e) => {
            return Err(e);
        },
    };
    let end = match req_instant(es, "end") {
        Result::Ok(t) => t,
        Result::Err(e) => {
            return Err(e);
        },
    };
    let description = match req_string(es, "description") {
        Result::Ok(s) => s,
        Result::Err(e) => {
            return Err(e);
        },
    };
    let tags = match req_tags(es, "tags") {
        Result::Ok(ts) => ts,
        Result::Err(e) => {
            return Err(e);
        },
    };
    Ok(Alert { sender_name, event, start, end, description, tags })
}

/// The error a sequence of alerts decodes to: the first failing element's,
/// in order.
pub open spec fn spec_alert_vec_err(s: Seq<Json>) -> Option<ErrView>
    decreases s.len(),
{
    if s.len() == 0 {
        None
    } else {
        match spec_alert_err(s[0]) {
            Option::Some(e) => Some(e),
            Option::None => spec_alert_vec_err(s.skip(1)),
        }
    }
}

pub proof fn lemma_alert_vec_err_skip(s: Seq<Json>, i: int)
    requires
        0 <= i <= s.len(),
        forall|k: int| 0 <= k < i ==> spec_alert_err(s[k]) is None,
    ensures
        spec_alert_vec_err(s) == spec_alert_vec_err(s.skip(i)),
    decreases i,
{
    if i == 0 {
        assert(s.skip(0) =~= s);
    } else {
        lemma_alert_vec_err_skip(s, i - 1);
        assert(s.skip(i - 1)[0] == s[i - 1]);
        assert(s.skip(i - 1).skip(1) =~= s.skip(i));
    }
}

/// How a decoded alert sequence relates to the accepted array.
pub open spec fn alert_vec_matches(alerts: Seq<Alert>, s: Seq<Json>) -> bool {
    &&& alerts.len() == s.len()
    &&& forall|k: int| 0 <= k < s.len() ==> alert_matches(#[trigger] alerts[k], s[k])
}

/// Decodes an ordered sequence of alerts.
pub fn decode_alert_vec(arr: &Vec<Json>) -> (r: Result<Vec<Alert>, DecodeError>)
    ensures
        match r {
            Result::Ok(alerts) => spec_alert_vec_err(arr@) is None && alert_vec_matches(
                alerts@,
                arr@,
            ),
            Result::Err(e) => spec_alert_vec_err(arr@) == Some(e@),
        },
{
    let mut out: Vec<Alert> = Vec::new();
    let n = arr.len();
    let mut i: usize = 0;
    while i < n
        invariant
            n == arr.len(),
            i <= n,
            out@.len() == i,
            forall|k: int| 0 <= k < i ==> spec_alert_err(arr@[k]) is None,
            forall|k: int| 0 <= k < i ==> alert_matches(#[trigger] out@[k], arr@[k]),
        decreases n - i,
    {
        match decode_alert(&arr[i]) {
            Result::Ok(a) => out.push(a),
            Result::Err(e) => {
                proof {
                    lemma_alert_vec_err_skip(arr@, i as int);
                    assert(arr@.skip(i as int)[0] == arr@[i as int]);
                }
                return Err(e);
            },
        }
        i += 1;
    }
    proof {
        lemma_alert_vec_err_skip(arr@, n as int);
    }
    Ok(out)
}

} // verus!
