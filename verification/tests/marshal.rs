//! Tests of the pure value marshaller: classification, the conversion
//! table, and parameter validation.

use base64::Engine;
use sql_proxy::marshal::{bindable_parameters, cell_to_value, classify};
use sql_proxy::values::{DeclaredClass, DynamicValue, ExecutionError, ParamValue, RawCell};

#[test]
fn classify_maps_the_four_storage_classes() {
    assert_eq!(classify(&"INTEGER".to_string()), DeclaredClass::Integer);
    assert_eq!(classify(&"REAL".to_string()), DeclaredClass::Real);
    assert_eq!(classify(&"TEXT".to_string()), DeclaredClass::Text);
    assert_eq!(classify(&"BLOB".to_string()), DeclaredClass::Blob);
}

#[test]
fn classify_sends_other_tags_to_the_probe() {
    assert_eq!(classify(&"NULL".to_string()), DeclaredClass::Other);
    assert_eq!(classify(&"NUMERIC".to_string()), DeclaredClass::Other);
    assert_eq!(classify(&"BOOLEAN".to_string()), DeclaredClass::Other);
    assert_eq!(classify(&"".to_string()), DeclaredClass::Other);
}

#[test]
fn blob_cell_converts_to_exact_base64_text() {
    let v = cell_to_value(DeclaredClass::Blob, &RawCell::Blob(vec![0x00, 0xFF, 0x10]));
    assert_eq!(v, DynamicValue::Text("AP8Q".to_string()));
    // Decoding the encoded text reproduces the original bytes exactly.
    let decoded = base64::engine::general_purpose::STANDARD.decode("AP8Q").unwrap();
    assert_eq!(decoded, vec![0x00, 0xFF, 0x10]);
}

#[test]
fn null_cell_converts_to_null_under_every_class() {
    for class in [
        DeclaredClass::Integer,
        DeclaredClass::Real,
        DeclaredClass::Text,
        DeclaredClass::Blob,
        DeclaredClass::Other,
    ] {
        assert_eq!(cell_to_value(class, &RawCell::Null), DynamicValue::Null);
    }
}

#[test]
fn mismatched_cell_degrades_to_null_not_an_error() {
    let v = cell_to_value(DeclaredClass::Integer, &RawCell::Text("12".to_string()));
    assert_eq!(v, DynamicValue::Null);
    let w = cell_to_value(DeclaredClass::Real, &RawCell::Blob(vec![1, 2, 3]));
    assert_eq!(w, DynamicValue::Null);
}

#[test]
fn untyped_probe_prefers_integer_then_float_then_text() {
    let i = cell_to_value(DeclaredClass::Other, &RawCell::Integer(5));
    assert_eq!(i, DynamicValue::Integer(5));
    let f = cell_to_value(DeclaredClass::Other, &RawCell::Real((0.5f64).to_bits()));
    assert_eq!(f, DynamicValue::Float((0.5f64).to_bits()));
    let t = cell_to_value(DeclaredClass::Other, &RawCell::Text("abc".to_string()));
    assert_eq!(t, DynamicValue::Text("abc".to_string()));
    let b = cell_to_value(DeclaredClass::Other, &RawCell::Blob(vec![1]));
    assert_eq!(b, DynamicValue::Null);
}

#[test]
fn text_under_blob_class_encodes_its_utf8_bytes() {
    let v = cell_to_value(DeclaredClass::Blob, &RawCell::Text("hi".to_string()));
    let expected = base64::engine::general_purpose::STANDARD.encode("hi".as_bytes());
    assert_eq!(v, DynamicValue::Text(expected));
}

#[test]
fn bindable_parameters_keeps_order_and_kinds() {
    let bits = (2.25f64).to_bits();
    let params = vec![
        ParamValue::Null,
        ParamValue::Boolean(false),
        ParamValue::Integer(-3),
        ParamValue::Float(bits),
        ParamValue::Text("t".to_string()),
    ];
    let vs = bindable_parameters(&params).unwrap();
    assert_eq!(
        vs,
        vec![
            DynamicValue::Null,
            DynamicValue::Boolean(false),
            DynamicValue::Integer(-3),
            DynamicValue::Float(bits),
            DynamicValue::Text("t".to_string()),
        ]
    );
}

#[test]
fn first_composite_parameter_is_reported() {
    let params = vec![ParamValue::Null, ParamValue::Composite, ParamValue::Composite];
    let r = bindable_parameters(&params);
    assert_eq!(r, Err(ExecutionError::UnbindableParameter(1)));
}

#[test]
fn error_messages_are_descriptive() {
    assert!(!ExecutionError::NoDatabaseSelected.message().is_empty());
    assert!(!ExecutionError::UnbindableParameter(0).message().is_empty());
}

#[test]
fn failure_detail_is_surfaced_unchanged() {
    let detail = "Query failed: near \"SELEC\": syntax error".to_string();
    assert_eq!(ExecutionError::QueryFailed(detail.clone()).message(), detail);
    let detail = "Failed to connect to DB: unable to open".to_string();
    assert_eq!(ExecutionError::ConnectionFailed(detail.clone()).message(), detail);
}
