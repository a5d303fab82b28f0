use owm_model::fields::req_instant;
use owm_model::ts_seconds::{self, MAX_EPOCH_SECOND, MIN_EPOCH_SECOND};
use owm_model::{DecodeError, Json, Number};

fn obj(pairs: Vec<(&str, Json)>) -> Json {
    Json::Object(pairs.into_iter().map(|(k, v)| (k.to_string(), v)).collect())
}

fn entries(pairs: Vec<(&str, Json)>) -> Vec<(String, Json)> {
    pairs.into_iter().map(|(k, v)| (k.to_string(), v)).collect()
}

fn jstr(s: &str) -> Json {
    Json::Str(s.to_string())
}

fn jint(n: i64) -> Json {
    Json::Num(Number::Int(n))
}

fn juint(n: u64) -> Json {
    Json::Num(Number::UInt(n))
}

fn jfloat(x: f64) -> Json {
    Json::Num(Number::Float(x.to_bits()))
}

#[test]
fn parse_timestamp() {
    let ts = 1721691041;
    let text = format!(r#"{{ "dt": {ts} }}"#);
    let value: serde_json::Value = serde_json::from_str(&text).unwrap();
    let dt_num = value["dt"].as_u64().unwrap();
    let es = entries(vec![("dt", juint(dt_num))]);
    let decoded = req_instant(&es, "dt").unwrap();
    let expected = jiff::Timestamp::from_second(ts)
        .unwrap()
        .to_zoned(jiff::tz::TimeZone::system());

    assert_eq!(expected.timestamp().as_second(), decoded.as_second());
}

#[test]
fn timestamp_decode_encode_round_trip() {
    for s in [0i64, 1, -1, 1721691041, MIN_EPOCH_SECOND, MAX_EPOCH_SECOND] {
        let t = ts_seconds::deserialize(&jint(s)).unwrap();
        let back = ts_seconds::serialize(&t);
        match back {
            Json::Num(Number::Int(v)) => assert_eq!(v, s),
            other => panic!("expected a signed integer token, got {:?}", other),
        }
    }
}

#[test]
fn timestamp_unsigned_above_i64_max_is_out_of_range() {
    let too_big = i64::MAX as u64 + 1;
    match ts_seconds::deserialize(&juint(too_big)) {
        Err(DecodeError::OutOfRange { value }) => assert_eq!(value, too_big as i128),
        other => panic!("expected OutOfRange, got {:?}", other),
    }
    match ts_seconds::deserialize(&juint(u64::MAX)) {
        Err(DecodeError::OutOfRange { value }) => assert_eq!(value, u64::MAX as i128),
        other => panic!("expected OutOfRange, got {:?}", other),
    }
}

#[test]
fn timestamp_bounds_are_exact() {
    let min_ok = ts_seconds::deserialize(&jint(MIN_EPOCH_SECOND)).unwrap();
    assert_eq!(min_ok.as_second(), MIN_EPOCH_SECOND);
    let max_ok = ts_seconds::deserialize(&jint(MAX_EPOCH_SECOND)).unwrap();
    assert_eq!(max_ok.as_second(), MAX_EPOCH_SECOND);
    // jiff agrees that these are exactly its own bounds.
    assert!(jiff::Timestamp::from_second(MIN_EPOCH_SECOND).is_ok());
    assert!(jiff::Timestamp::from_second(MAX_EPOCH_SECOND).is_ok());
    assert!(jiff::Timestamp::from_second(MIN_EPOCH_SECOND - 1).is_err());
    assert!(jiff::Timestamp::from_second(MAX_EPOCH_SECOND + 1).is_err());

    match ts_seconds::deserialize(&jint(MIN_EPOCH_SECOND - 1)) {
        Err(DecodeError::OutOfRange { value }) => {
            assert_eq!(value, (MIN_EPOCH_SECOND - 1) as i128)
        }
        other => panic!("expected OutOfRange, got {:?}", other),
    }
    match ts_seconds::deserialize(&jint(MAX_EPOCH_SECOND + 1)) {
        Err(DecodeError::OutOfRange { value }) => {
            assert_eq!(value, (MAX_EPOCH_SECOND + 1) as i128)
        }
        other => panic!("expected OutOfRange, got {:?}", other),
    }
    match ts_seconds::deserialize(&juint(MAX_EPOCH_SECOND as u64 + 1)) {
        Err(DecodeError::OutOfRange { value }) => {
            assert_eq!(value, (MAX_EPOCH_SECOND + 1) as i128)
        }
        other => panic!("expected OutOfRange, got {:?}", other),
    }
}

#[test]
fn timestamp_rejects_non_numeric_tokens() {
    for bad in [
        jstr("1721691041"),
        Json::Null,
        Json::Bool(true),
        Json::Array(vec![]),
        obj(vec![]),
        jfloat(1.5),
    ] {
        match ts_seconds::deserialize(&bad) {
            Err(DecodeError::TypeMismatch { expected, .. }) => {
                assert_eq!(expected, "a unix timestamp in seconds")
            }
            other => panic!("expected TypeMismatch, got {:?}", other),
        }
    }
}

#[test]
fn epoch_second_decodes_to_expected_utc_instant() {
    let decoded = ts_seconds::deserialize(&juint(1721691041)).unwrap();
    assert_eq!(decoded.as_second(), 1721691041);
    let stamp = jiff::Timestamp::from_second(decoded.as_second()).unwrap();
    assert_eq!(stamp.to_string(), "2024-07-22T23:30:41Z");
}

#[test]
fn missing_required_key_is_missing_field() {
    let es = entries(vec![("other", jint(3))]);
    match req_instant(&es, "dt") {
        Err(DecodeError::MissingField { field }) => assert_eq!(field, "dt"),
        other => panic!("expected MissingField, got {:?}", other),
    }
}
