use python_tauri::host::{ConversionError, HostValue};
use python_tauri::python_utils::pyany_to_json_value;
use python_tauri::value::{is_finite_bits, Number, StructuredValue};

fn unknown(repr: &str) -> HostValue {
    HostValue {
        is_none: false,
        as_bool: None,
        as_int: None,
        as_float: None,
        as_text: None,
        as_list: None,
        as_map: None,
        repr: repr.to_string(),
    }
}

fn host_none() -> HostValue {
    let mut host = unknown("None");
    host.is_none = true;
    host
}

fn host_bool(b: bool) -> HostValue {
    // The host's booleans are integers and floats as well.
    let mut host = unknown(if b { "True" } else { "False" });
    host.as_bool = Some(b);
    host.as_int = Some(if b { 1 } else { 0 });
    host.as_float = Some((if b { 1.0f64 } else { 0.0f64 }).to_bits());
    host
}

fn host_int(i: i64) -> HostValue {
    let mut host = unknown("int");
    host.as_int = Some(i);
    host.as_float = Some((i as f64).to_bits());
    host
}

fn host_float(f: f64) -> HostValue {
    let mut host = unknown("float");
    host.as_float = Some(f.to_bits());
    host
}

fn host_text(s: &str) -> HostValue {
    let mut host = unknown("str");
    host.as_text = Some(s.to_string());
    host
}

fn host_list(items: Vec<HostValue>) -> HostValue {
    let mut host = unknown("list");
    host.as_list = Some(items);
    host
}

fn host_map(entries: Vec<(&str, HostValue)>) -> HostValue {
    let mut host = unknown("dict");
    host.as_map = Some(entries.into_iter().map(|(k, v)| (k.to_string(), v)).collect());
    host
}

fn string(s: &str) -> StructuredValue {
    StructuredValue::String(s.to_string())
}

fn whole(i: i64) -> StructuredValue {
    StructuredValue::Number(Number::Int(i))
}

fn double(f: f64) -> StructuredValue {
    StructuredValue::Number(Number::Float(f.to_bits()))
}

#[test]
fn none_becomes_null() {
    assert_eq!(pyany_to_json_value(&host_none()), Ok(StructuredValue::Null));
}

#[test]
fn null_comes_before_every_other_probe() {
    let mut host = host_bool(true);
    host.is_none = true;
    host.as_text = Some("x".to_string());
    assert_eq!(pyany_to_json_value(&host), Ok(StructuredValue::Null));
}

#[test]
fn booleans_stay_booleans() {
    assert_eq!(pyany_to_json_value(&host_bool(true)), Ok(StructuredValue::Bool(true)));
    assert_eq!(pyany_to_json_value(&host_bool(false)), Ok(StructuredValue::Bool(false)));
}

#[test]
fn integers_become_numbers() {
    assert_eq!(pyany_to_json_value(&host_int(0)), Ok(whole(0)));
    assert_eq!(pyany_to_json_value(&host_int(-42)), Ok(whole(-42)));
    assert_eq!(pyany_to_json_value(&host_int(i64::MAX)), Ok(whole(i64::MAX)));
    assert_eq!(pyany_to_json_value(&host_int(i64::MIN)), Ok(whole(i64::MIN)));
}

#[test]
fn integer_comes_before_float() {
    let mut host = unknown("7");
    host.as_int = Some(7);
    host.as_float = Some(7.5f64.to_bits());
    assert_eq!(pyany_to_json_value(&host), Ok(whole(7)));
}

#[test]
fn finite_floats_become_numbers() {
    assert_eq!(pyany_to_json_value(&host_float(1.5)), Ok(double(1.5)));
    assert_eq!(pyany_to_json_value(&host_float(-0.0)), Ok(double(-0.0)));
    assert_eq!(pyany_to_json_value(&host_float(f64::MAX)), Ok(double(f64::MAX)));
    assert_eq!(pyany_to_json_value(&host_float(f64::MIN_POSITIVE)), Ok(double(f64::MIN_POSITIVE)));
}

#[test]
fn nan_and_infinities_become_null() {
    assert_eq!(pyany_to_json_value(&host_float(f64::NAN)), Ok(StructuredValue::Null));
    assert_eq!(pyany_to_json_value(&host_float(f64::INFINITY)), Ok(StructuredValue::Null));
    assert_eq!(pyany_to_json_value(&host_float(f64::NEG_INFINITY)), Ok(StructuredValue::Null));
    assert_eq!(pyany_to_json_value(&host_float(-f64::NAN)), Ok(StructuredValue::Null));
}

#[test]
fn finite_bits_agree_with_the_floats() {
    for f in [0.0f64, -0.0, 1.0, -1.5, f64::MAX, f64::MIN, f64::MIN_POSITIVE, 5e-324] {
        assert!(is_finite_bits(f.to_bits()));
    }
    for f in [f64::NAN, f64::INFINITY, f64::NEG_INFINITY] {
        assert!(!is_finite_bits(f.to_bits()));
    }
    assert!(is_finite_bits(0x7fef_ffff_ffff_ffff));
    assert!(!is_finite_bits(0x7ff0_0000_0000_0000));
    assert!(!is_finite_bits(0xfff0_0000_0000_0001));
}

#[test]
fn strings_stay_strings() {
    assert_eq!(pyany_to_json_value(&host_text("")), Ok(string("")));
    assert_eq!(pyany_to_json_value(&host_text("héllo")), Ok(string("héllo")));
}

#[test]
fn string_comes_before_sequence() {
    let mut host = host_text("ab");
    host.as_list = Some(vec![host_text("a"), host_text("b")]);
    assert_eq!(pyany_to_json_value(&host), Ok(string("ab")));
}

#[test]
fn sequences_keep_order_and_length() {
    let host = host_list(vec![host_int(1), host_text("two"), host_none(), host_bool(false)]);
    assert_eq!(
        pyany_to_json_value(&host),
        Ok(StructuredValue::List(vec![
            whole(1),
            string("two"),
            StructuredValue::Null,
            StructuredValue::Bool(false)
        ]))
    );
    assert_eq!(pyany_to_json_value(&host_list(vec![])), Ok(StructuredValue::List(vec![])));
}

#[test]
fn sequence_comes_before_mapping() {
    let mut host = host_list(vec![host_int(1)]);
    host.as_map = Some(vec![("k".to_string(), host_int(2))]);
    assert_eq!(pyany_to_json_value(&host), Ok(StructuredValue::List(vec![whole(1)])));
}

#[test]
fn mappings_keep_keys_and_values() {
    let host = host_map(vec![("a", host_int(1)), ("b", host_text("x"))]);
    assert_eq!(
        pyany_to_json_value(&host),
        Ok(StructuredValue::Object(vec![
            ("a".to_string(), whole(1)),
            ("b".to_string(), string("x"))
        ]))
    );
    assert_eq!(pyany_to_json_value(&host_map(vec![])), Ok(StructuredValue::Object(vec![])));
}

#[test]
fn later_entry_replaces_earlier_under_the_same_key() {
    let host = host_map(vec![("a", host_int(1)), ("b", host_int(2)), ("a", host_int(3))]);
    assert_eq!(
        pyany_to_json_value(&host),
        Ok(StructuredValue::Object(vec![("a".to_string(), whole(3)), ("b".to_string(), whole(2))]))
    );
}

#[test]
fn nested_list_of_maps_keeps_its_structure() {
    let host = host_list(vec![
        host_map(vec![
            ("id", host_int(1)),
            ("tags", host_list(vec![host_text("x"), host_text("y")])),
        ]),
        host_map(vec![("id", host_int(2)), ("ratio", host_float(0.25)), ("none", host_none())]),
        host_list(vec![host_list(vec![host_bool(true)])]),
    ]);
    let expected = StructuredValue::List(vec![
        StructuredValue::Object(vec![
            ("id".to_string(), whole(1)),
            ("tags".to_string(), StructuredValue::List(vec![string("x"), string("y")])),
        ]),
        StructuredValue::Object(vec![
            ("id".to_string(), whole(2)),
            ("ratio".to_string(), double(0.25)),
            ("none".to_string(), StructuredValue::Null),
        ]),
        StructuredValue::List(vec![StructuredValue::List(vec![StructuredValue::Bool(true)])]),
    ]);
    assert_eq!(pyany_to_json_value(&host), Ok(expected));
}

#[test]
fn non_finite_float_inside_a_list_becomes_null() {
    let host = host_list(vec![host_float(f64::NAN), host_float(2.0)]);
    assert_eq!(
        pyany_to_json_value(&host),
        Ok(StructuredValue::List(vec![StructuredValue::Null, double(2.0)]))
    );
}

#[test]
fn unrecognized_object_is_an_error() {
    let host = unknown("Py(0x7f00dead)");
    assert_eq!(
        pyany_to_json_value(&host),
        Err(ConversionError { value: "Py(0x7f00dead)".to_string() })
    );
}

#[test]
fn error_message_names_the_value() {
    let error = pyany_to_json_value(&unknown("Py(0x1)")).unwrap_err();
    assert_eq!(error.message(), "Cannot convert Python object to JSON: Py(0x1)");
}

#[test]
fn failing_element_fails_the_whole_list() {
    let host = host_list(vec![host_int(1), unknown("first"), host_int(3), unknown("second")]);
    assert_eq!(pyany_to_json_value(&host), Err(ConversionError { value: "first".to_string() }));
}

#[test]
fn failing_value_fails_the_whole_mapping() {
    let host = host_map(vec![("a", host_int(1)), ("b", unknown("bad")), ("c", unknown("worse"))]);
    assert_eq!(pyany_to_json_value(&host), Err(ConversionError { value: "bad".to_string() }));
}

#[test]
fn failure_deep_inside_comes_to_the_top() {
    let inner = host_map(vec![("inner", unknown("deep"))]);
    let host = host_map(vec![("outer", host_list(vec![inner]))]);
    assert_eq!(pyany_to_json_value(&host), Err(ConversionError { value: "deep".to_string() }));
}
