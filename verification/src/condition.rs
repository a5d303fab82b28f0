//! The weather-condition category decoder.
//!
//! The `main` field of a weather descriptor carries one of a closed,
//! fifteen-member vocabulary of category names. Matching is exact — case
//! sensitive, no trimming, no synonyms — and any other string is a hard
//! decode failure, so that an upstream schema change cannot pass silently.

use vstd::prelude::*;
use crate::error::{DecodeError, ErrView};
use crate::json::str_eq;

verus! {

/// Group of weather parameters (Rain, Snow, Extreme, etc.).
#[derive(Debug, Clone, Copy, PartialEq, Eq, Structural)]
pub enum Main {
    Thunderstorm,
    Drizzle,
    Rain,
    Snow,
    Mist,
    Smoke,
    Haze,
    Dust,
    Fog,
    Sand,
    Ash,
    Squall,
    Tornado,
    Clear,
    Clouds,
}

/// The category a string names, if any: the closed vocabulary itself.
pub open spec fn spec_main_of(s: Seq<char>) -> Option<Main> {
    if s == "Thunderstorm"@ {
        Some(Main::Thunderstorm)
    } else if s == "Drizzle"@ {
        Some(Main::Drizzle)
    } else if s == "Rain"@ {
        Some(Main::Rain)
    } else if s == "Snow"@ {
        Some(Main::Snow)
    } else if s == "Mist"@ {
        Some(Main::Mist)
    } else if s == "Smoke"@ {
        Some(Main::Smoke)
    } else if s == "Haze"@ {
        Some(Main::Haze)
    } else if s == "Dust"@ {
        Some(Main::Dust)
    } else if s == "Fog"@ {
        Some(Main::Fog)
    } else if s == "Sand"@ {
        Some(Main::Sand)
    } else if s == "Ash"@ {
        Some(Main::Ash)
    } else if s == "Squall"@ {
        Some(Main::Squall)
    } else if s == "Tornado"@ {
        Some(Main::Tornado)
    } else if s == "Clear"@ {
        Some(Main::Clear)
    } else if s == "Clouds"@ {
        Some(Main::Clouds)
    } else {
        None
    }
}

/// Decodes a category name; an unrecognized string fails, identifying the
/// value, rather than falling back to any default.
pub fn decode_main(s: &str) -> (r: Result<Main, DecodeError>)
    ensures
        match r {
            Result::Ok(m) => spec_main_of(s@) == Some(m),
            Result::Err(e) => spec_main_of(s@) is None && e@ == (ErrView::UnrecognizedEnum {
                value: s@,
            }),
        },
{
    if str_eq(s, "Thunderstorm") {
        Ok(Main::Thunderstorm)
    } else if str_eq(s, "Drizzle") {
        Ok(Main::Drizzle)
    } else if str_eq(s, "Rain") {
        Ok(Main::Rain)
    } else if str_eq(s, "Snow") {
        Ok(Main::Snow)
    } else if str_eq(s, "Mist") {
        Ok(Main::Mist)
    } else if str_eq(s, "Smoke") {
        Ok(Main::Smoke)
    } else if str_eq(s, "Haze") {
        Ok(Main::Haze)
    } else if str_eq(s, "Dust") {
        Ok(Main::Dust)
    } else if str_eq(s, "Fog") {
        Ok(Main::Fog)
    } else if str_eq(s, "Sand") {
        Ok(Main::Sand)
    } else if str_eq(s, "Ash") {
        Ok(Main::Ash)
    } else if str_eq(s, "Squall") {
        Ok(Main::Squall)
    } else if str_eq(s, "Tornado") {
        Ok(Main::Tornado)
    } else if str_eq(s, "Clear") {
        Ok(Main::Clear)
    } else if str_eq(s, "Clouds") {
        Ok(Main::Clouds)
    } else {
        Err(DecodeError::UnrecognizedEnum { value: s.to_owned() })
    }
}

} // verus!
