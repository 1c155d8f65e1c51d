use note_store::change_log::{
    change_log_statement, ChangeLogEntry,
    document_payload, finish_mutation, folder_payload, frame_folder_payload, record_if_offline,
    timer_payload, update_payload, MutatingOp,
};
use note_store::json_text::{int_string, json_string, opt_int_string};
use note_store::mode::AppMode;
use note_store::records::{insert_folder_statement, save_document_statement, SqlValue, INSERT_DOCUMENT, INSERT_FOLDER};

#[test]
fn offline_folder_creation_is_logged() {
    let statement = insert_folder_statement("Inbox", None);
    assert_eq!(statement.sql, INSERT_FOLDER);
    assert!(matches!(&statement.params[0], SqlValue::Text(t) if t == "Inbox"));
    assert!(matches!(statement.params[1], SqlValue::Null));
    let payload = folder_payload("Inbox", None);
    assert_eq!(payload, r#"{"name":"Inbox","parent_id":null}"#);
    let (result, entry) =
        finish_mutation::<String>(AppMode::Offline, MutatingOp::CreateNewFolder, Ok(()), payload);
    assert_eq!(result, Ok(()));
    let entry = entry.unwrap();
    assert_eq!(entry.op_type, "create_new_folder");
    assert_eq!(entry.payload, r#"{"name":"Inbox","parent_id":null}"#);
}

#[test]
fn online_document_save_is_not_logged() {
    let doc_json = r#"{"time":1700000000,"blocks":[{"id":"a1","type":"header","data":{"text":"Plans","level":2}}],"version":"2.28.0"}"#;
    let statement = save_document_statement(doc_json, 1700000000, 1);
    assert_eq!(statement.sql, INSERT_DOCUMENT);
    assert!(matches!(&statement.params[0], SqlValue::Text(t) if t == "Plans"));
    assert!(matches!(statement.params[1], SqlValue::Integer(1700000000)));
    assert!(matches!(&statement.params[2], SqlValue::Text(t) if t == doc_json));
    assert!(matches!(statement.params[3], SqlValue::Integer(1)));
    let payload = document_payload(doc_json, 1);
    let (result, entry) =
        finish_mutation::<String>(AppMode::Online, MutatingOp::SaveDocument, Ok(()), payload);
    assert_eq!(result, Ok(()));
    assert!(entry.is_none());
}

#[test]
fn offline_payload_round_trips_through_json() {
    let payload = folder_payload("Work \"2024\"\n", Some(7));
    let value: serde_json::Value = serde_json::from_str(&payload).unwrap();
    assert_eq!(value["name"].as_str(), Some("Work \"2024\"\n"));
    assert_eq!(value["parent_id"].as_i64(), Some(7));
    let entry = record_if_offline(AppMode::Offline, MutatingOp::CreateNewFolder, payload).unwrap();
    let again: serde_json::Value = serde_json::from_str(&entry.payload).unwrap();
    assert_eq!(again, value);
}

#[test]
fn folder_payload_escapes_name() {
    assert_eq!(
        folder_payload("a\"b", Some(7)),
        r#"{"name":"a\"b","parent_id":7}"#
    );
}

#[test]
fn json_string_quotes_and_escapes() {
    assert_eq!(json_string("q\"b\\s/\u{8}\u{c}\r\n\u{1}\u{1f}\u{7f}é"), "\"q\\\"b\\\\s/\\b\\f\\r\\n\\u0001\\u001f\u{7f}é\"");
    assert_eq!(json_string("Inbox"), "\"Inbox\"");
    assert_eq!(json_string("tab\there"), "\"tab\\there\"");
}

#[test]
fn frame_uses_given_literal() {
    assert_eq!(frame_folder_payload("\"x\"", Some(-3)), r#"{"name":"x","parent_id":-3}"#);
}

#[test]
fn each_operation_has_its_tag() {
    assert_eq!(MutatingOp::CreateNewFolder.name(), "create_new_folder");
    assert_eq!(MutatingOp::SaveDocument.name(), "save_document");
    assert_eq!(MutatingOp::UpdateDocument.name(), "update_document");
    assert_eq!(MutatingOp::SaveTimerSession.name(), "save_timer_session");
}

#[test]
fn online_mode_records_nothing() {
    for op in [
        MutatingOp::CreateNewFolder,
        MutatingOp::SaveDocument,
        MutatingOp::UpdateDocument,
        MutatingOp::SaveTimerSession,
    ] {
        assert!(record_if_offline(AppMode::Online, op, "{}".to_string()).is_none());
    }
}

#[test]
fn offline_mode_records_one_row_per_mutation() {
    let ops = [
        (MutatingOp::CreateNewFolder, "{\"name\":\"A\",\"parent_id\":null}"),
        (MutatingOp::SaveTimerSession, "{\"session\":{}}"),
        (MutatingOp::UpdateDocument, "{\"doc\":{},\"folderId\":null,\"id\":4}"),
    ];
    let mut log = Vec::new();
    for (op, payload) in ops {
        if let Some(entry) = record_if_offline(AppMode::Offline, op, payload.to_string()) {
            log.push(entry);
        }
    }
    assert_eq!(log.len(), 3);
    assert_eq!(log[0].op_type, "create_new_folder");
    assert_eq!(log[1].op_type, "save_timer_session");
    assert_eq!(log[2].op_type, "update_document");
    assert_eq!(log[2].payload, "{\"doc\":{},\"folderId\":null,\"id\":4}");
}

#[test]
fn failed_write_is_reported_and_not_logged() {
    let (result, entry) = finish_mutation(
        AppMode::Offline,
        MutatingOp::SaveDocument,
        Err("disk full".to_string()),
        "{}".to_string(),
    );
    assert_eq!(result, Err("disk full".to_string()));
    assert!(entry.is_none());
}

#[test]
fn document_payloads() {
    assert_eq!(document_payload("{\"a\":1}", 12), r#"{"doc":{"a":1},"folderId":12}"#);
    assert_eq!(
        update_payload(5, "{\"title\":\"T\"}", None),
        r#"{"doc":{"title":"T"},"folderId":null,"id":5}"#
    );
    assert_eq!(
        update_payload(5, "{}", Some(-2)),
        r#"{"doc":{},"folderId":-2,"id":5}"#
    );
    assert_eq!(timer_payload("{\"extended\":true}"), r#"{"session":{"extended":true}}"#);
}

#[test]
fn decimal_text() {
    assert_eq!(int_string(0), "0");
    assert_eq!(int_string(7), "7");
    assert_eq!(int_string(10), "10");
    assert_eq!(int_string(-5), "-5");
    assert_eq!(int_string(1234567890), "1234567890");
    assert_eq!(int_string(i64::MAX), "9223372036854775807");
    assert_eq!(int_string(i64::MIN), "-9223372036854775808");
    assert_eq!(opt_int_string(None), "null");
    assert_eq!(opt_int_string(Some(42)), "42");
}

#[test]
fn change_log_insert_binds_tag_and_payload() {
    let entry = ChangeLogEntry { op_type: "save_document".to_string(), payload: "{}".to_string() };
    let s = change_log_statement(&entry);
    assert_eq!(s.sql, note_store::change_log::INSERT_CHANGE_LOG);
    assert_eq!(s.params.len(), 2);
    assert!(matches!(&s.params[0], SqlValue::Text(t) if t == "save_document"));
    assert!(matches!(&s.params[1], SqlValue::Text(t) if t == "{}"));
}
