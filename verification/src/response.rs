//! The top-level forecast response: optional `current`, `minutely`,
//! `hourly`, `daily` and `alerts` sections. A section's absence mirrors the
//! upstream request parameters and is preserved exactly — an absent or
//! `null` section is "not present", never an empty default.

use vstd::prelude::*;
use crate::error::{at_field, spec_at_field, DecodeError, ErrView};
use crate::forecast::{
    alert_vec_matches, current_matches, daily_vec_matches, decode_alert_vec, decode_current,
    decode_daily_vec, decode_hourly_vec, decode_minutely_vec, hourly_vec_matches,
    minutely_vec_matches, spec_alert_vec_err, spec_current_err, spec_daily_vec_err,
    spec_hourly_vec_err, spec_minutely_vec_err, Alert, Current, Daily, Hourly, Minutely,
};
use crate::json::{opt_field, spec_opt, Json};

verus! {

/// One decoded forecast response.
#[derive(Debug, Clone)]
pub struct Weather {
    pub current: Option<Current>,
    pub minutely: Option<Vec<Minutely>>,
    pub hourly: Option<Vec<Hourly>>,
    pub daily: Option<Vec<Daily>>,
    pub alerts: Option<Vec<Alert>>,
}

/// The error an optional `current` section decodes to.
pub open spec fn spec_opt_current_err(es: Seq<(String, Json)>) -> Option<ErrView> {
    match spec_opt(es, "current"@) {
        Option::None => None,
        Option::Some(v) => match spec_current_err(v) {
            Option::Some(e) => Some(spec_at_field(e, "current"@)),
            Option::None => None,
        },
    }
}

/// The error an optional `minutely` section decodes to.
pub open spec fn spec_opt_minutely_err(es: Seq<(String, Json)>) -> Option<ErrView> {
    match spec_opt(es, "minutely"@) {
        Option::None => None,
        Option::Some(v) => match v {
            Json::Array(a) => spec_minutely_vec_err(a@),
            _ => Some(ErrView::TypeMismatch { field: "minutely"@, expected: "an array"@ }),
        },
    }
}

/// The error an optional `hourly` section decodes to.
pub open spec fn spec_opt_hourly_err(es: Seq<(String, Json)>) -> Option<ErrView> {
    match spec_opt(es, "hourly"@) {
        Option::None => None,
        Option::Some(v) => match v {
            Json::Array(a) => spec_hourly_vec_err(a@),
            _ => Some(ErrView::TypeMismatch { field: "hourly"@, expected: "an array"@ }),
        },
    }
}

/// The error an optional `daily` section decodes to.
pub open spec fn spec_opt_daily_err(es: Seq<(String, Json)>) -> Option<ErrView> {
    match spec_opt(es, "daily"@) {
        Option::None => None,
        Option::Some(v) => match v {
            Json::Array(a) => spec_daily_vec_err(a@),
            _ => Some(ErrView::TypeMismatch { field: "daily"@, expected: "an array"@ }),
        },
    }
}

/// The error an optional `alerts` section decodes to.
pub open spec fn spec_opt_alerts_err(es: Seq<(String, Json)>) -> Option<ErrView> {
    match spec_opt(es, "alerts"@) {
        Option::None => None,
        Option::Some(v) => match v {
            Json::Array(a) => spec_alert_vec_err(a@),
            _ => Some(ErrView::TypeMismatch { field: "alerts"@, expected: "an array"@ }),
        },
    }
}

/// The error the sections of a response decode to, in order, or `None`
/// when the whole document is accepted.
pub open spec fn spec_weather_fields_err(es: Seq<(String, Json)>) -> Option<ErrView> {
    if spec_opt_current_err(es) is Some {
        spec_opt_current_err(es)
    } else if spec_opt_minutely_err(es) is Some {
        spec_opt_minutely_err(es)
    } else if spec_opt_hourly_err(es) is Some {
        spec_opt_hourly_err(es)
    } else if spec_opt_daily_err(es) is Some {
        spec_opt_daily_err(es)
    } else if spec_opt_alerts_err(es) is Some {
        spec_opt_alerts_err(es)
    } else {
        None
    }
}

/// The error a response document decodes to, or `None` when accepted.
pub open spec fn spec_weather_err(j: Json) -> Option<ErrView> {
    match j {
        Json::Object(es) => spec_weather_fields_err(es@),
        _ => Some(ErrView::TypeMismatch { field: Seq::empty(), expected: "an object"@ }),
    }
}

/// How a decoded response relates to the accepted document: each section
/// present exactly when its key is present and not `null`.
pub open spec fn weather_matches(w: Weather, j: Json) -> bool {
    &&& j matches Json::Object(entries)
    &&& {
        let es = entries@;
        &&& match w.current {
            Option::None => spec_opt(es, "current"@) is None,
            Option::Some(c) => spec_opt(es, "current"@) matches Some(v) && current_matches(c, v),
        }
        &&& match w.minutely {
            Option::None => spec_opt(es, "minutely"@) is None,
            Option::Some(ms) => spec_opt(es, "minutely"@) matches Some(v) && v matches Json::Array(
                a,
            ) && minutely_vec_matches(ms@, a@),
        }
        &&& match w.hourly {
            Option::None => spec_opt(es, "hourly"@) is None,
            Option::Some(hs) => spec_opt(es, "hourly"@) matches Some(v) && v matches Json::Array(
                a,
            ) && hourly_vec_matches(hs@, a@),
        }
        &&& match w.daily {
            Option::None => spec_opt(es, "daily"@) is None,
            Option::Some(ds) => spec_opt(es, "daily"@) matches Some(v) && v matches Json::Array(
                a,
            ) && daily_vec_matches(ds@, a@),
        }
        &&& match w.alerts {
            Option::None => spec_opt(es, "alerts"@) is None,
            Option::Some(alerts) => spec_opt(es, "alerts"@) matches Some(v)
                && v matches Json::Array(a) && alert_vec_matches(alerts@, a@),
        }
    }
}

/// Decodes a whole forecast response.
pub fn decode_weather(j: &Json) -> (r: Result<Weather, DecodeError>)
    ensures
        match r {
            Result::Ok(w) => spec_weather_err(*j) is None && weather_matches(w, *j),
            Result::Err(e) => spec_weather_err(*j) == Some(e@),
        },
{
    let es = match j {
        Json::Object(es) => es,
        _ => {
            return Err(
                DecodeError::TypeMismatch {
                    field: String::new(),
                    expected: "an object".to_owned(),
                },
            );
        },
    };
    let current = match opt_field(es, "current") {
        Option::None => None,
        Option::Some(v) => match decode_current(v) {
            Result::Ok(c) => Some(c),
            Result::Err(e) => {
                return Err(at_field(e, "current"));
            },
        },
    };
    let minutely = match opt_field(es, "minutely") {
        Option::None => None,
        Option::Some(v) => match v {
            Json::Array(a) => match decode_minutely_vec(a) {
                Result::Ok(ms) => Some(ms),
                Result::Err(e) => {
                    return Err(e);
                },
            },
            _ => {
                return Err(
                    DecodeError::TypeMismatch {
                        field: "minutely".to_owned(),
                        expected: "an array".to_owned(),
                    },
                );
            },
        },
    };
    let hourly = match opt_field(es, "hourly") {
        Option::None => None,
        Option::Some(v) => match v {
            Json::Array(a) => match decode_hourly_vec(a) {
                Result::Ok(hs) => Some(hs),
                Result::Err(e) => {
                    return Err(e);
                },
            },
            _ => {
                return Err(
                    DecodeError::TypeMismatch {
                        field: "hourly".to_owned(),
                        expected: "an array".to_owned(),
                    },
                );
            },
        },
    };
    let daily = match opt_field(es, "daily") {
        Option::None => None,
        Option::Some(v) => match v {
            Json::Array(a) => match decode_daily_vec(a) {
                Result::Ok(ds) => Some(ds),
                Result::Err(e) => {
                    return Err(e);
                },
            },
            _ => {
                return Err(
                    DecodeError::TypeMismatch {
                        field: "daily".to_owned(),
                        expected: "an array".to_owned(),
                    },
                );
            },
        },
    };
    let alerts = match opt_field(es, "alerts") {
        Option::None => None,
        Option::Some(v) => match v {
            Json::Array(a) => match decode_alert_vec(a) {
                Result::Ok(alerts) => Some(alerts),
                Result::Err(e) => {
                    return Err(e);
                },
            },
            _ => {
                return Err(
                    DecodeError::TypeMismatch {
                        field: "alerts".to_owned(),
                        expected: "an array".to_owned(),
                    },
                );
            },
        },
    };
    Ok(Weather { current, minutely, hourly, daily, alerts })
}

} // verus!
