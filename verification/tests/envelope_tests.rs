use owm_model::envelope::{decode_owm_error, encode_owm_error};
use owm_model::{DecodeError, ErrorCode, Json, Number, OwmError};

fn obj(pairs: Vec<(&str, Json)>) -> Json {
    Json::Object(pairs.into_iter().map(|(k, v)| (k.to_string(), v)).collect())
}

fn jstr(s: &str) -> Json {
    Json::Str(s.to_string())
}

#[test]
fn string_cod_stays_textual() {
    let doc = obj(vec![("cod", jstr("404")), ("message", jstr("city not found"))]);
    let e = decode_owm_error(&doc).unwrap();
    match &e.code {
        ErrorCode::String(s) => assert_eq!(s, "404"),
        other => panic!("expected the textual variant, got {:?}", other),
    }
    assert_eq!(e.code.display_string(), "404");
    assert_eq!(e.message, "city not found");
    assert_eq!(e.display_string(), "OWM error 404: city not found");
}

#[test]
fn numeric_cod_stays_numeric() {
    let doc = obj(vec![
        ("cod", Json::Num(Number::UInt(404))),
        ("message", jstr("city not found")),
    ]);
    let e = decode_owm_error(&doc).unwrap();
    match e.code {
        ErrorCode::Number(n) => assert_eq!(n, 404),
        other => panic!("expected the numeric variant, got {:?}", other),
    }
    assert_eq!(e.code.display_string(), "404");
    assert_eq!(e.display_string(), "OWM error 404: city not found");
}

#[test]
fn negative_numeric_cod_renders_in_decimal() {
    let doc = obj(vec![
        ("cod", Json::Num(Number::Int(-7))),
        ("message", jstr("bad"))
    ]);
    let e = decode_owm_error(&doc).unwrap();
    assert_eq!(e.code.display_string(), "-7");
    assert_eq!(e.display_string(), "OWM error -7: bad");
}

#[test]
fn error_code_encode_then_decode_keeps_the_kind() {
    let textual = OwmError {
        code: ErrorCode::String("404".to_string()),
        message: "city not found".to_string(),
    };
    let back = decode_owm_error(&encode_owm_error(&textual)).unwrap();
    assert!(matches!(&back.code, ErrorCode::String(s) if s == "404"));
    assert_eq!(back.message, "city not found");

    let numeric = OwmError {
        code: ErrorCode::Number(404),
        message: "city not found".to_string(),
    };
    let back = decode_owm_error(&encode_owm_error(&numeric)).unwrap();
    assert!(matches!(back.code, ErrorCode::Number(404)));
    assert_eq!(back.message, "city not found");
}

#[test]
fn envelope_missing_cod_or_message_fails() {
    let doc = obj(vec![("message", jstr("oops"))]);
    match decode_owm_error(&doc) {
        Err(DecodeError::MissingField { field }) => assert_eq!(field, "cod"),
        other => panic!("expected MissingField, got {:?}", other),
    }
    let doc = obj(vec![("cod", jstr("500"))]);
    match decode_owm_error(&doc) {
        Err(DecodeError::MissingField { field }) => assert_eq!(field, "message"),
        other => panic!("expected MissingField, got {:?}", other),
    }
}

#[test]
fn envelope_rejects_wrong_token_kinds() {
    let doc = obj(vec![("cod", Json::Bool(true)), ("message", jstr("x"))]);
    match decode_owm_error(&doc) {
        Err(DecodeError::TypeMismatch { field, expected }) => {
            assert_eq!(field, "cod");
            assert_eq!(expected, "a string or an integer");
        }
        other => panic!("expected TypeMismatch, got {:?}", other),
    }
    let doc = obj(vec![("cod", jstr("500")), ("message", Json::Num(Number::Int(1)))]);
    match decode_owm_error(&doc) {
        Err(DecodeError::TypeMismatch { field, expected }) => {
            assert_eq!(field, "message");
            assert_eq!(expected, "a string");
        }
        other => panic!("expected TypeMismatch, got {:?}", other),
    }
    let doc = jstr("not an object");
    match decode_owm_error(&doc) {
        Err(DecodeError::TypeMismatch { expected, .. }) => assert_eq!(expected, "an object"),
        other => panic!("expected TypeMismatch, got {:?}", other),
    }
}

#[test]
fn envelope_cod_out_of_numeric_range_fails() {
    let doc = obj(vec![
        ("cod", Json::Num(Number::UInt(5_000_000_000))),
        ("message", jstr("x")),
    ]);
    match decode_owm_error(&doc) {
        Err(DecodeError::OutOfRange { value }) => assert_eq!(value, 5_000_000_000),
        other => panic!("expected OutOfRange, got {:?}", other),
    }
}
