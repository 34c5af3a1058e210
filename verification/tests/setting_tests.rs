use log_collector::setting::{
    process_event, CustomFormatter, EventField, FieldSet, FieldValue, InitError, Installation,
};

fn string_field(name: &str, value: &str) -> EventField {
    EventField { name: name.to_string(), value: FieldValue::Str(value.to_string()) }
}

fn debug_field<T: std::fmt::Debug>(name: &str, value: T) -> EventField {
    EventField { name: name.to_string(), value: FieldValue::Debug(format!("{:?}", value)) }
}

fn formatter(scope: &str) -> CustomFormatter {
    CustomFormatter { service_name: scope.to_string() }
}

#[test]
fn visitor_keeps_strings_and_renders_the_rest_as_strings() {
    let fields = vec![string_field("user_id", "u1"), debug_field("count", 5)];
    let set = process_event(&fields);
    assert_eq!(set.to_json().ok().unwrap(), r#"{"user_id":"u1","count":"5"}"#);
}

#[test]
fn visitor_never_writes_native_numbers_or_booleans() {
    let fields = vec![debug_field("n", 1.5f64), debug_field("flag", true), debug_field("neg", -3i64)];
    let set = process_event(&fields);
    assert_eq!(set.to_json().ok().unwrap(), r#"{"n":"1.5","flag":"true","neg":"-3"}"#);
}

#[test]
fn visitor_keeps_visitation_order() {
    let fields = vec![string_field("z", "1"), string_field("a", "2"), string_field("m", "3")];
    let set = process_event(&fields);
    assert_eq!(set.to_json().ok().unwrap(), r#"{"z":"1","a":"2","m":"3"}"#);
}

#[test]
fn visitor_lets_the_last_occurrence_win() {
    let fields = vec![
        string_field("a", "first"),
        string_field("b", "other"),
        debug_field("a", 7),
    ];
    let set = process_event(&fields);
    assert_eq!(set.to_json().ok().unwrap(), r#"{"a":"7","b":"other"}"#);
}

#[test]
fn visitor_of_no_fields_gives_the_empty_object() {
    let set = process_event(&Vec::new());
    assert_eq!(set.to_json().ok().unwrap(), "{}");
    assert_eq!(FieldSet::new().to_json().ok().unwrap(), "{}");
}

#[test]
fn record_str_and_record_debug_write_strings() {
    let mut set = FieldSet::new();
    set.record_str("s", "text");
    set.record_debug("d", "Some(1)");
    assert_eq!(set.to_json().ok().unwrap(), r#"{"s":"text","d":"Some(1)"}"#);
    set.record(&string_field("s", "again"));
    assert_eq!(set.to_json().ok().unwrap(), r#"{"s":"again","d":"Some(1)"}"#);
}

#[test]
fn field_values_are_escaped_by_the_serializer() {
    let mut set = FieldSet::new();
    set.record_str("message", "say \"hi\"\n\\");
    assert_eq!(set.to_json().ok().unwrap(), r#"{"message":"say \"hi\"\n\\"}"#);
}

#[test]
fn formatter_wraps_scope_and_fields_in_one_line() {
    let line = formatter("svc").format_event(&vec![string_field("a", "1")]);
    assert_eq!(line.as_bytes(), b"{\"scope\":\"svc\",\"fields\":{\"a\":\"1\"}}\n");
}

#[test]
fn formatter_wraps_a_field_set() {
    let mut set = FieldSet::new();
    set.record_str("a", "1");
    set.record_str("b", "2");
    let line = formatter("svc").format_fields(&set);
    assert_eq!(line, "{\"scope\":\"svc\",\"fields\":{\"a\":\"1\",\"b\":\"2\"}}\n");
}

#[test]
fn formatter_substitutes_the_empty_object_for_failed_fields() {
    assert_eq!(formatter("svc").format_line(None), "{\"scope\":\"svc\",\"fields\":{}}\n");
}

#[test]
fn formatter_takes_the_serialized_fields_as_they_are() {
    assert_eq!(
        formatter("Rust-log-collector").format_line(Some(r#"{"message":"m"}"#)),
        "{\"scope\":\"Rust-log-collector\",\"fields\":{\"message\":\"m\"}}\n"
    );
}

#[test]
fn formatter_adds_no_timestamp_and_no_level() {
    let line = formatter("svc").format_event(&Vec::new());
    assert_eq!(line, "{\"scope\":\"svc\",\"fields\":{}}\n");
    assert!(line.ends_with('\n'));
    assert_eq!(line.matches('\n').count(), 1);
}

#[test]
fn second_installation_is_refused_and_the_first_stays() {
    let mut state = Installation::new();
    assert!(!state.is_installed());
    assert_eq!(state.install(), Ok(()));
    assert!(state.is_installed());
    assert_eq!(state.install(), Err(InitError::AlreadyInitialized));
    assert_eq!(state.install(), Err(InitError::AlreadyInitialized));
    assert!(state.is_installed());
}

#[test]
fn formatter_writes_the_label_as_a_json_string() {
    let line = formatter("a \"b\"\n\\").format_event(&vec![string_field("k", "v")]);
    assert_eq!(line, "{\"scope\":\"a \\\"b\\\"\\n\\\\\",\"fields\":{\"k\":\"v\"}}\n");
    assert_eq!(line.matches('\n').count(), 1);
    let value: serde_json::Value = serde_json::from_str(&line).expect("the line is JSON");
    assert_eq!(value["scope"], "a \"b\"\n\\");
    assert_eq!(value["fields"]["k"], "v");
}

#[test]
fn formatter_gives_the_same_line_for_the_same_event() {
    let fields = vec![string_field("message", "m"), debug_field("n", 1)];
    let console = formatter("svc").format_event(&fields);
    let file = formatter("svc").format_event(&fields);
    assert_eq!(console, file);
    assert_eq!(console, "{\"scope\":\"svc\",\"fields\":{\"message\":\"m\",\"n\":\"1\"}}\n");
}
