use owm_model::condition::decode_main;
use owm_model::forecast::{decode_alert, decode_current, decode_daily, decode_hourly,
    decode_minutely};
use owm_model::records::{decode_precipitation, decode_weather_element};
use owm_model::response::decode_weather;
use owm_model::{DecodeError, Json, Main, Number};

fn obj(pairs: Vec<(&str, Json)>) -> Json {
    Json::Object(pairs.into_iter().map(|(k, v)| (k.to_string(), v)).collect())
}

fn jstr(s: &str) -> Json {
    Json::Str(s.to_string())
}

fn jint(n: i64) -> Json {
    Json::Num(Number::Int(n))
}

fn juint(n: u64) -> Json {
    Json::Num(Number::UInt(n))
}

fn jfloat(x: f64) -> Json {
    Json::Num(Number::Float(x.to_bits()))
}

fn clear_descriptor() -> Json {
    obj(vec![
        ("id", juint(800)),
        ("main", jstr("Clear")),
        ("description", jstr("clear sky")),
        ("icon", jstr("01d")),
    ])
}

fn current_pairs() -> Vec<(&'static str, Json)> {
    vec![
        ("dt", juint(1721691041)),
        ("sunrise", juint(1721639687)),
        ("sunset", juint(1721695221)),
        ("temp", jfloat(292.55)),
        ("feels_like", jfloat(292.87)),
        ("pressure", juint(1014)),
        ("humidity", juint(89)),
        ("dew_point", jfloat(290.69)),
        ("clouds", juint(53)),
        ("uvi", jfloat(0.16)),
        ("visibility", juint(10000)),
        ("wind_speed", jfloat(3.13)),
        ("wind_gust", jfloat(6.71)),
        ("wind_deg", juint(93)),
        ("rain", obj(vec![("1h", jfloat(2.73))])),
        ("weather", Json::Array(vec![clear_descriptor()])),
    ]
}

#[test]
fn clear_decodes_blizzard_fails() {
    assert!(matches!(decode_main("Clear"), Ok(Main::Clear)));
    match decode_main("Blizzard") {
        Err(DecodeError::UnrecognizedEnum { value }) => assert_eq!(value, "Blizzard"),
        other => panic!("expected UnrecognizedEnum, got {:?}", other),
    }

    let good = obj(vec![
        ("id", juint(800)),
        ("main", jstr("Clear")),
        ("description", jstr("clear sky")),
        ("icon", jstr("01d")),
    ]);
    let w = decode_weather_element(&good).unwrap();
    assert!(matches!(w.main, Main::Clear));
    assert_eq!(w.id, 800);
    assert_eq!(w.description, "clear sky");
    assert_eq!(w.icon, "01d");

    let bad = obj(vec![
        ("id", juint(800)),
        ("main", jstr("Blizzard")),
        ("description", jstr("blizzard")),
        ("icon", jstr("13d")),
    ]);
    match decode_weather_element(&bad) {
        Err(DecodeError::UnrecognizedEnum { value }) => assert_eq!(value, "Blizzard"),
        other => panic!("expected UnrecognizedEnum, got {:?}", other),
    }
}

#[test]
fn condition_matching_is_exact() {
    for bad in ["clear", "CLEAR", " Clear", "Clear ", ""] {
        assert!(matches!(
            decode_main(bad),
            Err(DecodeError::UnrecognizedEnum { .. })
        ));
    }
    for good in [
        "Thunderstorm", "Drizzle", "Rain", "Snow", "Mist", "Smoke", "Haze", "Dust", "Fog",
        "Sand", "Ash", "Squall", "Tornado", "Clear", "Clouds",
    ] {
        assert!(decode_main(good).is_ok());
    }
}

#[test]
fn precipitation_uses_the_one_hour_key() {
    let p = decode_precipitation(&obj(vec![("1h", jfloat(0.25))])).unwrap();
    assert_eq!(p.one_hour, Number::Float(0.25f64.to_bits()));
    match decode_precipitation(&obj(vec![("one_hour", jfloat(0.25))])) {
        Err(DecodeError::MissingField { field }) => assert_eq!(field, "1h"),
        other => panic!("expected MissingField, got {:?}", other),
    }
}

#[test]
fn current_decodes_field_by_field() {
    let c = decode_current(&obj(current_pairs())).unwrap();
    assert_eq!(c.dt.as_second(), 1721691041);
    assert_eq!(c.sunrise.as_second(), 1721639687);
    assert_eq!(c.sunset.as_second(), 1721695221);
    assert_eq!(c.temp, Number::Float(292.55f64.to_bits()));
    assert_eq!(c.feels_like, Number::Float(292.87f64.to_bits()));
    assert_eq!(c.pressure, 1014);
    assert_eq!(c.humidity, 89);
    assert_eq!(c.dew_point, Number::Float(290.69f64.to_bits()));
    assert_eq!(c.clouds, 53);
    assert_eq!(c.uvi, Number::Float(0.16f64.to_bits()));
    assert_eq!(c.visibility, Some(10000));
    assert_eq!(c.wind_speed, Number::Float(3.13f64.to_bits()));
    assert_eq!(c.wind_gust, Some(Number::Float(6.71f64.to_bits())));
    assert_eq!(c.wind_deg, 93);
    let rain = c.rain.expect("rain should be present");
    assert_eq!(rain.one_hour, Number::Float(2.73f64.to_bits()));
    assert!(c.snow.is_none());
    assert_eq!(c.weather.len(), 1);
    assert!(matches!(c.weather[0].main, Main::Clear));
}

#[test]
fn current_missing_temp_is_missing_field() {
    let pairs: Vec<(&str, Json)> = current_pairs()
        .into_iter()
        .filter(|(k, _)| *k != "temp")
        .collect();
    match decode_current(&obj(pairs)) {
        Err(DecodeError::MissingField { field }) => assert_eq!(field, "temp"),
        other => panic!("expected MissingField, got {:?}", other),
    }
    // The failure propagates through the whole response decode, yielding no
    // partial value.
    let pairs: Vec<(&str, Json)> = current_pairs()
        .into_iter()
        .filter(|(k, _)| *k != "temp")
        .collect();
    let doc = obj(vec![("current", obj(pairs))]);
    match decode_weather(&doc) {
        Err(DecodeError::MissingField { field }) => assert_eq!(field, "temp"),
        other => panic!("expected MissingField, got {:?}", other),
    }
}

#[test]
fn absent_and_null_optionals_are_both_not_present() {
    let mut pairs: Vec<(&str, Json)> = current_pairs()
        .into_iter()
        .filter(|(k, _)| *k != "visibility" && *k != "rain")
        .collect();
    pairs.push(("visibility", Json::Null));
    let c = decode_current(&obj(pairs)).unwrap();
    assert!(c.visibility.is_none());
    assert!(c.rain.is_none());
    assert!(c.wind_gust.is_some());
}

#[test]
fn out_of_range_integer_field_fails() {
    let pairs: Vec<(&str, Json)> = current_pairs()
        .into_iter()
        .map(|(k, v)| if k == "humidity" { (k, juint(300)) } else { (k, v) })
        .collect();
    match decode_current(&obj(pairs)) {
        Err(DecodeError::OutOfRange { value }) => assert_eq!(value, 300),
        other => panic!("expected OutOfRange, got {:?}", other),
    }
}

#[test]
fn wrong_kind_for_number_field_fails() {
    let pairs: Vec<(&str, Json)> = current_pairs()
        .into_iter()
        .map(|(k, v)| if k == "temp" { (k, jstr("292.55")) } else { (k, v) })
        .collect();
    match decode_current(&obj(pairs)) {
        Err(DecodeError::TypeMismatch { field, expected }) => {
            assert_eq!(field, "temp");
            assert_eq!(expected, "a number");
        }
        other => panic!("expected TypeMismatch, got {:?}", other),
    }
}

#[test]
fn minutely_decodes() {
    let m = decode_minutely(&obj(vec![
        ("dt", juint(1721691060)),
        ("precipitation", jfloat(0.0)),
    ]))
    .unwrap();
    assert_eq!(m.dt.as_second(), 1721691060);
    assert_eq!(m.precipitation, Number::Float(0.0f64.to_bits()));
}

#[test]
fn hourly_decodes() {
    let h = decode_hourly(&obj(vec![
        ("dt", juint(1721692800)),
        ("temp", jfloat(292.01)),
        ("feels_like", jfloat(292.33)),
        ("pressure", juint(1014)),
        ("humidity", juint(91)),
        ("dew_point", jfloat(290.51)),
        ("uvi", jfloat(0.0)),
        ("clouds", juint(54)),
        ("visibility", juint(10000)),
        ("wind_speed", jfloat(2.58)),
        ("wind_deg", juint(86)),
        ("pop", jfloat(0.15)),
        ("weather", Json::Array(vec![clear_descriptor()])),
    ]))
    .unwrap();
    assert_eq!(h.dt.as_second(), 1721692800);
    assert_eq!(h.pop, Number::Float(0.15f64.to_bits()));
    assert!(h.wind_gust.is_none());
    assert!(h.rain.is_none());
    assert_eq!(h.weather.len(), 1);
}

#[test]
fn daily_decodes_with_flat_rain_total() {
    let d = decode_daily(&obj(vec![
        ("dt", juint(1721736000)),
        ("sunrise", juint(1721726122)),
        ("sunset", juint(1721781660)),
        ("moonrise", juint(1721783520)),
        ("moonset", juint(1721725800)),
        ("moon_phase", jfloat(0.54)),
        (
            "temp",
            obj(vec![
                ("morn", jfloat(290.44)),
                ("day", jfloat(294.31)),
                ("eve", jfloat(293.78)),
                ("night", jfloat(291.66)),
                ("min", jfloat(289.77)),
                ("max", jfloat(295.18)),
            ]),
        ),
        (
            "feels_like",
            obj(vec![
                ("morn", jfloat(290.54)),
                ("day", jfloat(294.21)),
                ("eve", jfloat(293.93)),
                ("night", jfloat(291.87)),
            ]),
        ),
        ("pressure", juint(1015)),
        ("humidity", juint(75)),
        ("dew_point", jfloat(289.91)),
        ("wind_speed", jfloat(4.95)),
        ("wind_deg", juint(113)),
        ("clouds", juint(60)),
        ("uvi", jfloat(6.18)),
        ("pop", jfloat(0.84)),
        ("rain", jfloat(2.34)),
        ("weather", Json::Array(vec![clear_descriptor()])),
    ]))
    .unwrap();
    assert_eq!(d.dt.as_second(), 1721736000);
    assert_eq!(d.temp.min, Number::Float(289.77f64.to_bits()));
    assert_eq!(d.feels_like.night, Number::Float(291.87f64.to_bits()));
    // Daily totals are flat scalars, not a nested precipitation object.
    assert_eq!(d.rain, Some(Number::Float(2.34f64.to_bits())));
    assert!(d.snow.is_none());
    assert_eq!(d.moon_phase, Number::Float(0.54f64.to_bits()));
}

#[test]
fn daily_temp_missing_min_is_missing_field() {
    let d = obj(vec![
        ("dt", juint(1721736000)),
        ("sunrise", juint(1721726122)),
        ("sunset", juint(1721781660)),
        ("moonrise", juint(1721783520)),
        ("moonset", juint(1721725800)),
        ("moon_phase", jfloat(0.54)),
        (
            "temp",
            obj(vec![
                ("morn", jfloat(290.44)),
                ("day", jfloat(294.31)),
                ("eve", jfloat(293.78)),
                ("night", jfloat(291.66)),
                ("max", jfloat(295.18)),
            ]),
        ),
    ]);
    match decode_daily(&d) {
        Err(DecodeError::MissingField { field }) => assert_eq!(field, "min"),
        other => panic!("expected MissingField, got {:?}", other),
    }
}

#[test]
fn alert_decodes_with_tags() {
    let a = decode_alert(&obj(vec![
        ("sender_name", jstr("NWS Philadelphia - Mount Holly")),
        ("event", jstr("Small Craft Advisory")),
        ("start", juint(1684952747)),
        ("end", juint(1684988747)),
        ("description", jstr("...SMALL CRAFT ADVISORY REMAINS IN EFFECT...")),
        ("tags", Json::Array(vec![jstr("Marine"), jstr("Wind")])),
    ]))
    .unwrap();
    assert_eq!(a.sender_name, "NWS Philadelphia - Mount Holly");
    assert_eq!(a.event, "Small Craft Advisory");
    assert_eq!(a.start.as_second(), 1684952747);
    assert_eq!(a.end.as_second(), 1684988747);
    assert_eq!(a.tags, vec!["Marine".to_string(), "Wind".to_string()]);

    let bad = obj(vec![
        ("sender_name", jstr("x")),
        ("event", jstr("y")),
        ("start", juint(1684952747)),
        ("end", juint(1684988747)),
        ("description", jstr("z")),
        ("tags", Json::Array(vec![jstr("Marine"), jint(3)])),
    ]);
    match decode_alert(&bad) {
        Err(DecodeError::TypeMismatch { field, expected }) => {
            assert_eq!(field, "tags");
            assert_eq!(expected, "a string");
        }
        other => panic!("expected TypeMismatch, got {:?}", other),
    }
}

#[test]
fn response_with_only_current_leaves_other_sections_absent() {
    let doc = obj(vec![("current", obj(current_pairs()))]);
    let w = decode_weather(&doc).unwrap();
    let current = w.current.expect("current should be populated");
    assert_eq!(current.dt.as_second(), 1721691041);
    assert!(w.minutely.is_none());
    assert!(w.hourly.is_none());
    assert!(w.daily.is_none());
    assert!(w.alerts.is_none());
}

#[test]
fn response_sections_decode_and_null_is_absent() {
    let doc = obj(vec![
        ("current", obj(current_pairs())),
        (
            "minutely",
            Json::Array(vec![
                obj(vec![("dt", juint(1721691060)), ("precipitation", jfloat(0.0))]),
                obj(vec![("dt", juint(1721691120)), ("precipitation", jfloat(0.2))]),
            ]),
        ),
        ("hourly", Json::Null),
    ]);
    let w = decode_weather(&doc).unwrap();
    assert!(w.current.is_some());
    let minutely = w.minutely.expect("minutely should be populated");
    assert_eq!(minutely.len(), 2);
    assert_eq!(minutely[1].dt.as_second(), 1721691120);
    assert!(w.hourly.is_none());
    assert!(w.daily.is_none());
}

#[test]
fn response_rejects_non_array_section() {
    let doc = obj(vec![("minutely", jstr("nope"))]);
    match decode_weather(&doc) {
        Err(DecodeError::TypeMismatch { field, expected }) => {
            assert_eq!(field, "minutely");
            assert_eq!(expected, "an array");
        }
        other => panic!("expected TypeMismatch, got {:?}", other),
    }
}
