use log_collector::builder::{LogBuilder, RenderedAction, SystemLogs};
use log_collector::setting::SerializeError;
use log_collector::{
    assemble, create_log, finish_log, frame_record, log_audit, log_error, log_info, log_warn,
    render_action, RecordMembers, Severity,
};

fn failed_trade() -> RenderedAction {
    RenderedAction::new("TransactionFailed", "Failed").expect("the text is not empty")
}

fn user_log() -> LogBuilder<RenderedAction> {
    LogBuilder::user(
        "ev-1",
        "TransactionModule",
        "user789",
        "alice",
        "Insufficient funds",
        failed_trade(),
    )
}

fn parse(line: &str) -> serde_json::Value {
    serde_json::from_str(line).expect("the line is JSON")
}

#[test]
fn absent_action_is_rendered_as_none() {
    let mut log = user_log();
    log.action = None;
    let entry = assemble(log, "INFO", "id".to_string(), "now".to_string());
    assert_eq!(entry.action, "None");
    assert_eq!(render_action::<RenderedAction>(&None), "None");
}

#[test]
fn present_action_is_rendered_by_its_short_text() {
    let entry = assemble(user_log(), "INFO", "id".to_string(), "now".to_string());
    assert_eq!(entry.action, "TransactionFailed");
    assert_eq!(render_action(&Some(SystemLogs::SystemAction)), "SystemAction");
    assert_eq!(render_action(&Some(failed_trade())), "TransactionFailed");
}

#[test]
fn assemble_copies_every_field_of_the_envelope() {
    let log = user_log().add_metadata("k", "v");
    let entry = assemble(log, "WARN", "the-id".to_string(), "the-time".to_string());
    assert_eq!(entry.timestamp, "the-time");
    assert_eq!(entry.log_id, "the-id");
    assert_eq!(entry.log_level, "WARN");
    assert_eq!(entry.log_type, "User");
    assert_eq!(entry.module, "TransactionModule");
    assert_eq!(entry.user_id.as_deref(), Some("user789"));
    assert_eq!(entry.user_name.as_deref(), Some("alice"));
    assert_eq!(entry.event_id, "ev-1");
    assert_eq!(entry.log_msg, "Insufficient funds");
    assert_eq!(entry.action, "TransactionFailed");
    let metadata = entry.metadata.unwrap();
    assert_eq!(metadata.len(), 1);
    assert_eq!(metadata.get("k").map(|v| v.as_str()), Some("v"));
}

#[test]
fn record_json_has_the_canonical_members_in_order() {
    let log = user_log().add_metadata("k1", "v1").add_metadata("k2", "v2");
    let entry = assemble(
        log,
        "ERROR",
        "67e55044-10b1-426f-9247-bb680e5fe0c8".to_string(),
        "2018-01-26T18:30:09.453Z".to_string(),
    );
    assert_eq!(
        entry.to_json().ok().unwrap(),
        concat_all(&[
            r#"{"timestamp":"2018-01-26T18:30:09.453Z","#,
            r#""log_id":"67e55044-10b1-426f-9247-bb680e5fe0c8","#,
            r#""log_level":"ERROR","log_type":"User","module":"TransactionModule","#,
            r#""user_id":"user789","user_name":"alice","event_id":"ev-1","#,
            r#""log_msg":"Insufficient funds","action":"TransactionFailed","#,
            r#""metadata":{"k1":"v1","k2":"v2"}}"#,
        ])
    );
}

fn concat_all(parts: &[&str]) -> String {
    parts.iter().map(|p| p.to_string()).collect()
}

#[test]
fn record_json_writes_null_for_what_is_absent() {
    let mut log = LogBuilder::system("ev", "LoggerService", "down");
    log.metadata = None;
    let entry = assemble(log, "ERROR", "id".to_string(), "t".to_string());
    assert_eq!(
        entry.to_json().ok().unwrap(),
        concat_all(&[
            r#"{"timestamp":"t","log_id":"id","log_level":"ERROR","log_type":"System","#,
            r#""module":"LoggerService","user_id":null,"user_name":null,"event_id":"ev","#,
            r#""log_msg":"down","action":"SystemAction","metadata":null}"#,
        ])
    );
}

#[test]
fn record_json_escapes_strings() {
    let log = LogBuilder::system("e\"1", "m\\", "line one\nline two\t\u{1}")
        .add_metadata("k\"", "v\n");
    let entry = assemble(log, "INFO", "id".to_string(), "t".to_string());
    let json = entry.to_json().ok().unwrap();
    let value = parse(&json);
    assert_eq!(value["event_id"], "e\"1");
    assert_eq!(value["module"], "m\\");
    assert_eq!(value["log_msg"], "line one\nline two\t\u{1}");
    assert_eq!(value["metadata"]["k\""], "v\n");
    assert!(json.contains(r#""log_msg":"line one\nline two\t\u0001""#));
}

#[test]
fn frame_record_joins_member_texts() {
    let members = RecordMembers {
        timestamp: "1".to_string(),
        log_id: "2".to_string(),
        log_level: "3".to_string(),
        log_type: "4".to_string(),
        module: "5".to_string(),
        user_id: "6".to_string(),
        user_name: "7".to_string(),
        event_id: "8".to_string(),
        log_msg: "9".to_string(),
        action: "10".to_string(),
        metadata: "11".to_string(),
    };
    assert_eq!(
        frame_record(&members),
        concat_all(&[
            r#"{"timestamp":1,"log_id":2,"log_level":3,"log_type":4,"module":5,"#,
            r#""user_id":6,"user_name":7,"event_id":8,"log_msg":9,"action":10,"metadata":11}"#,
        ])
    );
}

#[test]
fn finish_log_embeds_the_reason_of_a_failure() {
    let failed = Err(SerializeError { reason: "key must be a string".to_string() });
    assert_eq!(finish_log(failed), "Failed to serialize log: key must be a string");
    assert_eq!(finish_log(Ok("{}".to_string())), "{}");
}

#[test]
fn create_log_output_is_json_that_reproduces_the_envelope() {
    let log = user_log().add_metadata("ip", "10.0.0.1").add_metadata("try", "3");
    let line = create_log(log, "INFO");
    let value = parse(&line);
    let object = value.as_object().unwrap();
    let names: Vec<&str> = object.keys().map(|k| k.as_str()).collect();
    assert_eq!(
        names,
        vec![
            "timestamp", "log_id", "log_level", "log_type", "module", "user_id", "user_name",
            "event_id", "log_msg", "action", "metadata",
        ]
    );
    assert_eq!(value["log_level"], "INFO");
    assert_eq!(value["log_type"], "User");
    assert_eq!(value["module"], "TransactionModule");
    assert_eq!(value["user_id"], "user789");
    assert_eq!(value["user_name"], "alice");
    assert_eq!(value["event_id"], "ev-1");
    assert_eq!(value["log_msg"], "Insufficient funds");
    assert_eq!(value["action"], "TransactionFailed");
    assert_eq!(value["metadata"]["ip"], "10.0.0.1");
    assert_eq!(value["metadata"]["try"], "3");
    assert_eq!(value["metadata"].as_object().unwrap().len(), 2);
}

#[test]
fn create_log_stamps_a_fresh_id_and_a_utc_instant() {
    let first = parse(&create_log(user_log(), "INFO"));
    let second = parse(&create_log(user_log(), "INFO"));
    let id = first["log_id"].as_str().unwrap();
    assert_eq!(id.len(), 36);
    assert_eq!(id.as_bytes()[14], b'4');
    assert!(uuid::Uuid::parse_str(id).is_ok());
    assert_ne!(first["log_id"], second["log_id"]);
    assert_eq!(first["event_id"], second["event_id"]);
    let stamp = first["timestamp"].as_str().unwrap();
    assert!(stamp.ends_with('Z'));
    let parsed = chrono::DateTime::parse_from_rfc3339(stamp).expect("an RFC 3339 instant");
    assert_eq!(parsed.offset().local_minus_utc(), 0);
}

#[test]
fn create_log_without_action_writes_none() {
    let mut log = user_log();
    log.action = None;
    let value = parse(&create_log(log, "INFO"));
    assert_eq!(value["action"], "None");
}

#[test]
fn each_emission_binds_its_level_and_severity() {
    let info = log_info(user_log());
    assert_eq!(info.severity, Severity::Info);
    assert_eq!(parse(&info.line)["log_level"], "INFO");

    let warn = log_warn(user_log());
    assert_eq!(warn.severity, Severity::Warn);
    assert_eq!(parse(&warn.line)["log_level"], "WARN");

    let error = log_error(LogBuilder::system("ev", "LoggerService", "Unexpected shutdown"));
    assert_eq!(error.severity, Severity::Error);
    let value = parse(&error.line);
    assert_eq!(value["log_level"], "ERROR");
    assert_eq!(value["log_type"], "System");
    assert_eq!(value["action"], "SystemAction");
    assert!(value["user_id"].is_null());
}

#[test]
fn audit_travels_as_info_and_keeps_its_own_level() {
    let audit = log_audit(user_log());
    assert_eq!(audit.severity, Severity::Info);
    assert_eq!(parse(&audit.line)["log_level"], "AUDIT");
}

#[test]
fn records_of_equal_envelopes_agree_on_all_but_id_and_timestamp() {
    let mut first = parse(&create_log(user_log().add_metadata("k", "v"), "WARN"));
    let mut second = parse(&create_log(user_log().add_metadata("k", "v"), "WARN"));
    assert_ne!(first["log_id"], second["log_id"]);
    for record in [&mut first, &mut second] {
        let object = record.as_object_mut().unwrap();
        object.remove("log_id");
        object.remove("timestamp");
    }
    assert_eq!(first, second);
}

#[test]
fn record_of_a_user_envelope_with_the_system_action() {
    let log = LogBuilder::<SystemLogs> {
        event_id: "e1".into(),
        log_type: "User".into(),
        log_msg: "msg1".into(),
        module: "m1".into(),
        user_id: Some("u1".into()),
        user_name: Some("n1".into()),
        action: Some(SystemLogs::SystemAction),
        metadata: None,
    };
    let v = parse(&create_log(log, "WARN"));
    assert_eq!(v["event_id"], "e1");
    assert_eq!(v["module"], "m1");
    assert_eq!(v["log_msg"], "msg1");
    assert_eq!(v["user_id"], "u1");
    assert_eq!(v["user_name"], "n1");
    assert_eq!(v["log_type"], "User");
    assert_eq!(v["log_level"], "WARN");
    assert_eq!(v["action"], "SystemAction");
    assert!(v["metadata"].is_null());
}

#[test]
fn timestamp_has_the_positions_of_an_rfc_3339_instant() {
    let value = parse(&create_log(user_log(), "INFO"));
    let stamp = value["timestamp"].as_str().unwrap().as_bytes();
    assert!(stamp.len() >= 20);
    for (at, byte) in stamp[..19].iter().enumerate() {
        match at {
            4 | 7 => assert_eq!(*byte, b'-'),
            10 => assert_eq!(*byte, b'T'),
            13 | 16 => assert_eq!(*byte, b':'),
            _ => assert!(byte.is_ascii_digit()),
        }
    }
    let fraction = &stamp[19..stamp.len() - 1];
    assert!(matches!(fraction.len(), 0 | 4 | 7 | 10));
    if let Some((point, digits)) = fraction.split_first() {
        assert_eq!(*point, b'.');
        assert!(digits.iter().all(|d| d.is_ascii_digit()));
    }
    assert_eq!(stamp[stamp.len() - 1], b'Z');
}
