use sidecar::{is_decodable, json_to_sql, row_value_to_json, RawColumn, SqlParam, UntypedValue};

fn column() -> RawColumn {
    RawColumn { text: None, integer: None, float: None, boolean: None, binary: None }
}

#[test]
fn every_value_has_its_parameter() {
    assert_eq!(json_to_sql(&UntypedValue::Null), SqlParam::Null);
    assert_eq!(json_to_sql(&UntypedValue::Bool(true)), SqlParam::Bool(true));
    assert_eq!(json_to_sql(&UntypedValue::Bool(false)), SqlParam::Bool(false));
    assert_eq!(json_to_sql(&UntypedValue::Integer(-42)), SqlParam::Integer(-42));
    assert_eq!(
        json_to_sql(&UntypedValue::Integer(i64::MAX)),
        SqlParam::Integer(i64::MAX)
    );
    assert_eq!(
        json_to_sql(&UntypedValue::Float(1.5f64.to_bits())),
        SqlParam::Real(1.5f64.to_bits())
    );
    assert_eq!(
        json_to_sql(&UntypedValue::Text("hello".to_string())),
        SqlParam::Text("hello".to_string())
    );
}

#[test]
fn unrepresentable_number_becomes_decimal_text() {
    let huge = "123456789012345678901234567890".to_string();
    assert_eq!(
        json_to_sql(&UntypedValue::Decimal(huge.clone())),
        SqlParam::Text(huge)
    );
}

#[test]
fn composite_becomes_its_serialized_text() {
    assert_eq!(
        json_to_sql(&UntypedValue::Composite("[1,2]".to_string())),
        SqlParam::Text("[1,2]".to_string())
    );
}

#[test]
fn text_wins_over_integer() {
    let both = RawColumn {
        text: Some("42".to_string()),
        integer: Some(42),
        ..column()
    };
    assert_eq!(row_value_to_json(&both), UntypedValue::Text("42".to_string()));
}

#[test]
fn extraction_follows_the_priority_order() {
    let all_but_text = RawColumn {
        text: None,
        integer: Some(7),
        float: Some(7.0f64.to_bits()),
        boolean: Some(true),
        binary: Some(vec![7]),
    };
    assert_eq!(row_value_to_json(&all_but_text), UntypedValue::Integer(7));
    let from_float = RawColumn { integer: None, ..all_but_text.clone() };
    assert_eq!(
        row_value_to_json(&from_float),
        UntypedValue::Float(7.0f64.to_bits())
    );
    let from_boolean = RawColumn { float: None, ..from_float.clone() };
    assert_eq!(row_value_to_json(&from_boolean), UntypedValue::Bool(true));
    let from_binary = RawColumn { boolean: None, ..from_boolean.clone() };
    assert_eq!(
        row_value_to_json(&from_binary),
        UntypedValue::Text("Bw==".to_string())
    );
}

#[test]
fn column_that_answers_to_nothing_is_null() {
    assert_eq!(row_value_to_json(&column()), UntypedValue::Null);
}

#[test]
fn binary_comes_out_text_safe_encoded() {
    let cases: [(&[u8], &str); 6] = [
        (b"", ""),
        (b"f", "Zg=="),
        (b"fo", "Zm8="),
        (b"foo", "Zm9v"),
        (&[1, 2, 3], "AQID"),
        (&[0xff, 0xfe], "//4="),
    ];
    for (bytes, text) in cases {
        let blob = RawColumn { binary: Some(bytes.to_vec()), ..column() };
        assert!(is_decodable(&blob));
        assert_eq!(row_value_to_json(&blob), UntypedValue::Text(text.to_string()));
    }
}

#[test]
fn ordinary_columns_are_decodable() {
    assert!(is_decodable(&column()));
    assert!(is_decodable(&RawColumn { integer: Some(1), binary: Some(vec![0; 64]), ..column() }));
}

#[test]
fn number_takes_the_first_native_form_it_has() {
    assert_eq!(
        UntypedValue::number(Some(7), Some(7), Some(7.0f64.to_bits()), "7".to_string()),
        UntypedValue::Integer(7)
    );
    assert_eq!(
        UntypedValue::number(Some(-7), None, Some((-7.0f64).to_bits()), "-7".to_string()),
        UntypedValue::Integer(-7)
    );
    assert_eq!(
        UntypedValue::number(None, None, Some(7.5f64.to_bits()), "7.5".to_string()),
        UntypedValue::Float(7.5f64.to_bits())
    );
    assert_eq!(
        UntypedValue::number(None, None, None, "1e999".to_string()),
        UntypedValue::Decimal("1e999".to_string())
    );
}

#[test]
fn integer_beyond_the_signed_range_binds_as_its_decimal_text() {
    let largest = UntypedValue::number(
        None,
        Some(u64::MAX),
        Some((u64::MAX as f64).to_bits()),
        "18446744073709551615".to_string(),
    );
    assert_eq!(largest, UntypedValue::Decimal("18446744073709551615".to_string()));
    assert_eq!(
        json_to_sql(&largest),
        SqlParam::Text("18446744073709551615".to_string())
    );
    let first_beyond = UntypedValue::number(
        None,
        Some(9223372036854775808),
        Some(9223372036854775808.0f64.to_bits()),
        "9223372036854775808".to_string(),
    );
    assert_eq!(
        json_to_sql(&first_beyond),
        SqlParam::Text("9223372036854775808".to_string())
    );
    let last_within = UntypedValue::number(
        Some(i64::MAX),
        Some(9223372036854775807),
        Some((i64::MAX as f64).to_bits()),
        "9223372036854775807".to_string(),
    );
    assert_eq!(json_to_sql(&last_within), SqlParam::Integer(i64::MAX));
}
