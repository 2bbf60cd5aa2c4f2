use picdl_rs::json::{lookup, req_i64, req_str, JsonError, JsonValue};

#[test]
fn decimal_rendering() {
    assert_eq!(picdl_rs::json::dec_u128(0).as_str(), "0");
    assert_eq!(picdl_rs::json::dec_u128(9).as_str(), "9");
    assert_eq!(picdl_rs::json::dec_u128(907).as_str(), "907");
    assert_eq!(
        picdl_rs::json::dec_u128(340282366920938463463374607431768211455).as_str(),
        "340282366920938463463374607431768211455"
    );
    assert_eq!(picdl_rs::json::dec_i128(-35).as_str(), "-35");
    assert_eq!(picdl_rs::json::dec_i128(100).as_str(), "100");
    assert_eq!(picdl_rs::json::dec_i128(0).as_str(), "0");
}

#[test]
fn lookup_finds_first_binding() {
    let fields = vec![
        (String::from("k"), JsonValue::Int(1)),
        (String::from("other"), JsonValue::Int(2)),
    ];
    assert_eq!(lookup(&fields, "k"), Some(&JsonValue::Int(1)));
    assert_eq!(lookup(&fields, "other"), Some(&JsonValue::Int(2)));
    assert_eq!(lookup(&fields, "missing"), None);
}

#[test]
fn required_field_accessors_check_types_and_ranges() {
    let fields = vec![
        (String::from("n"), JsonValue::Int(7)),
        (String::from("big"), JsonValue::Int(170141183460469231731687303715884105727)),
        (String::from("s"), JsonValue::Str(String::from("text"))),
    ];
    assert_eq!(req_i64(&fields, "n"), Ok(7));
    assert_eq!(req_i64(&fields, "big"), Err(JsonError::Schema));
    assert_eq!(req_i64(&fields, "s"), Err(JsonError::Schema));
    assert_eq!(req_i64(&fields, "missing"), Err(JsonError::Schema));
    assert_eq!(req_str(&fields, "s"), Ok(String::from("text")));
    assert_eq!(req_str(&fields, "n"), Err(JsonError::Schema));
}
