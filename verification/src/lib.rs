//! Strongly typed, verified decoding of OpenWeatherMap "One Call" JSON
//! payloads: an untyped JSON document becomes either a fully validated
//! in-memory forecast (or error envelope) or a typed decode error.

pub mod condition;
pub mod envelope;
pub mod error;
pub mod fields;
pub mod forecast;
pub mod json;
pub mod records;
pub mod response;
pub mod ts_seconds;

pub use condition::Main;
pub use envelope::{ErrorCode, OwmError};
pub use error::DecodeError;
pub use forecast::{Alert, Current, Daily, Hourly, Minutely};
pub use json::{Json, Number};
pub use records::{DailyFeelsLikeTemperature, DailyTemperature, Precipitation, WeatherElement};
pub use response::Weather;
pub use ts_seconds::Instant;
