use note_store::json_text::extract_title;
use note_store::records::{
    assemble_folders, decode_document_row, decode_placement_row, decode_documents, decode_folder_row,
    document_from_rows, documents_in_folder, editor_content_from_rows, parse_document_id,
    prepare_update, timer_session_statement, update_statement, updated_document, Document,
    DocumentIdError, FolderRow, LoadError, PythonBackendDocument, RowError, SqlValue, TimerSession,
    INSERT_TIMER_SESSION, UPDATE_DOCUMENT_AND_FOLDER, UPDATE_DOCUMENT_KEEP_FOLDER,
};

fn text(s: &str) -> SqlValue {
    SqlValue::Text(s.to_string())
}

fn doc_row(id: i64, folder: Option<i64>) -> Vec<SqlValue> {
    vec![
        SqlValue::Integer(id),
        text("Title"),
        text("1700000000"),
        text("{\"blocks\":[]}"),
        match folder {
            Some(f) => SqlValue::Integer(f),
            None => SqlValue::Null,
        },
    ]
}

#[test]
fn decodes_document_row() {
    let d = decode_document_row(&doc_row(3, Some(9))).unwrap();
    assert_eq!(d.id, 3);
    assert_eq!(d.title, "Title");
    assert_eq!(d.time, "1700000000");
    assert_eq!(d.content, "{\"blocks\":[]}");
    assert_eq!(d.folder_id, Some(9));
    let d = decode_document_row(&doc_row(4, None)).unwrap();
    assert_eq!(d.folder_id, None);
}

#[test]
fn row_errors() {
    let mut short = doc_row(1, None);
    short.truncate(4);
    assert_eq!(decode_document_row(&short).unwrap_err(), RowError::MissingColumn(4));
    let mut null_title = doc_row(1, None);
    null_title[1] = SqlValue::Null;
    assert_eq!(decode_document_row(&null_title).unwrap_err(), RowError::NullValue(1));
    let mut real_id = doc_row(1, None);
    real_id[0] = SqlValue::Real;
    assert_eq!(decode_document_row(&real_id).unwrap_err(), RowError::WrongType(0));
    let mut blob_folder = doc_row(1, None);
    blob_folder[4] = SqlValue::Blob(vec![1, 2]);
    assert_eq!(decode_document_row(&blob_folder).unwrap_err(), RowError::WrongType(4));
}

#[test]
fn decodes_all_rows_or_first_error() {
    let docs = decode_documents(&vec![doc_row(1, None), doc_row(2, Some(1))]).unwrap();
    assert_eq!(docs.len(), 2);
    assert_eq!(docs[1].id, 2);
    assert!(decode_documents(&vec![]).unwrap().is_empty());
    let mut bad = doc_row(2, None);
    bad[2] = SqlValue::Integer(5);
    assert_eq!(
        decode_documents(&vec![doc_row(1, None), bad]).unwrap_err(),
        RowError::WrongType(2)
    );
}

#[test]
fn lookup_by_id() {
    assert_eq!(document_from_rows(&vec![]).unwrap_err(), LoadError::NotFound);
    assert_eq!(document_from_rows(&vec![doc_row(8, None)]).unwrap().id, 8);
    assert_eq!(
        document_from_rows(&vec![vec![SqlValue::Null]]).unwrap_err(),
        LoadError::Row(RowError::NullValue(0))
    );
    assert_eq!(editor_content_from_rows(&vec![doc_row(8, None)]).unwrap(), "{\"blocks\":[]}");
    assert_eq!(editor_content_from_rows(&vec![]).unwrap_err(), LoadError::NotFound);
}

#[test]
fn folders_list_their_documents() {
    let placements = vec![(1, Some(10)), (2, None), (3, Some(20)), (4, Some(10))];
    assert_eq!(documents_in_folder(&placements, 10), vec![1, 4]);
    assert_eq!(documents_in_folder(&placements, 30), Vec::<i64>::new());
    let rows = vec![
        decode_folder_row(&vec![SqlValue::Integer(10), text("Inbox"), SqlValue::Null]).unwrap(),
        FolderRow { id: 20, name: "Work".to_string(), parent_id: Some(10) },
    ];
    let folders = assemble_folders(&rows, &placements);
    assert_eq!(folders.len(), 2);
    assert_eq!(folders[0].name, "Inbox");
    assert_eq!(folders[0].parent_id, None);
    assert_eq!(folders[0].documents, vec![1, 4]);
    assert_eq!(folders[1].parent_id, Some(10));
    assert_eq!(folders[1].documents, vec![3]);
}

#[test]
fn folder_row_errors() {
    assert!(matches!(
        decode_folder_row(&vec![SqlValue::Integer(1), SqlValue::Null, SqlValue::Null]),
        Err(RowError::NullValue(1))
    ));
    assert!(matches!(
        decode_folder_row(&vec![SqlValue::Integer(1), text("A"), text("x")]),
        Err(RowError::WrongType(2))
    ));
}

fn document(folder_id: Option<i64>) -> Document {
    Document {
        id: 5,
        title: "T".to_string(),
        time: "17".to_string(),
        content: "{}".to_string(),
        folder_id,
    }
}

#[test]
fn update_moves_folder_only_when_given() {
    let s = update_statement(5, &document(Some(2)));
    assert_eq!(s.sql, UPDATE_DOCUMENT_AND_FOLDER);
    assert_eq!(s.params.len(), 5);
    assert!(matches!(s.params[3], SqlValue::Integer(2)));
    assert!(matches!(s.params[4], SqlValue::Integer(5)));
    let s = update_statement(5, &document(None));
    assert_eq!(s.sql, UPDATE_DOCUMENT_KEEP_FOLDER);
    assert_eq!(s.params.len(), 4);
    assert!(matches!(&s.params[0], SqlValue::Text(t) if t == "T"));
    assert!(matches!(s.params[3], SqlValue::Integer(5)));
}

#[test]
fn timer_session_binding() {
    let session = TimerSession {
        work_duration: 1500,
        break_duration: 300,
        start_time_work: "2024-01-01T09:00:00Z".to_string(),
        stop_time_work: "2024-01-01T09:25:00Z".to_string(),
        start_time_break: Some("2024-01-01T09:25:00Z".to_string()),
        stop_time_break: None,
        extended: true,
        extended_start_time: None,
        extended_stop_time: Some("2024-01-01T09:40:00Z".to_string()),
    };
    let s = timer_session_statement(&session);
    assert_eq!(s.sql, INSERT_TIMER_SESSION);
    assert_eq!(s.params.len(), 9);
    assert!(matches!(s.params[0], SqlValue::Integer(1500)));
    assert!(matches!(s.params[1], SqlValue::Integer(300)));
    assert!(matches!(&s.params[4], SqlValue::Text(t) if t == "2024-01-01T09:25:00Z"));
    assert!(matches!(s.params[5], SqlValue::Null));
    assert!(matches!(s.params[6], SqlValue::Integer(1)));
    assert!(matches!(s.params[7], SqlValue::Null));
    assert!(matches!(&s.params[8], SqlValue::Text(t) if t == "2024-01-01T09:40:00Z"));
}

#[test]
fn titles_from_first_block() {
    let doc = r#"{"time":1,"blocks":[{"id":"x","type":"paragraph","data":{"text":"Hello"}}],"version":"2"}"#;
    assert_eq!(extract_title(doc), Some("Hello".to_string()));
    assert_eq!(extract_title("not json"), None);
    assert_eq!(extract_title(r#"{"blocks":[]}"#), None);
    assert_eq!(extract_title(r#"{"blocks":[{"data":{"text":3}}]}"#), None);
}

#[test]
fn update_defaults_title_and_writes_time() {
    let d = prepare_update(9, "broken".to_string(), -42, Some(3));
    assert_eq!(d.id, 9);
    assert_eq!(d.title, "Untitled");
    assert_eq!(d.time, "-42");
    assert_eq!(d.content, "broken");
    assert_eq!(d.folder_id, Some(3));
    let doc = r#"{"blocks":[{"data":{"text":"Notes"}}]}"#;
    assert_eq!(prepare_update(9, doc.to_string(), 1700000000, None).title, "Notes");
    assert_eq!(updated_document(1, Some("X".to_string()), "{}".to_string(), 0, None).title, "X");
}

#[test]
fn save_without_title_uses_fallback() {
    let s = note_store::records::save_document_statement("{\"blocks\":[]}", 3, 4);
    assert!(matches!(&s.params[0], SqlValue::Text(t) if t == "No title found"));
}

#[test]
fn parses_document_ids() {
    assert_eq!(parse_document_id("42").ok(), Some(42));
    assert_eq!(parse_document_id("-7").ok(), Some(-7));
    assert_eq!(parse_document_id("+3").ok(), Some(3));
    assert_eq!(parse_document_id("9223372036854775807").ok(), Some(i64::MAX));
    assert_eq!(parse_document_id("9223372036854775808").ok(), None);
    assert_eq!(parse_document_id("").ok(), None);
    assert_eq!(parse_document_id("-").ok(), None);
    assert_eq!(parse_document_id(" 1").ok(), None);
    assert_eq!(parse_document_id("4x").ok(), None);
    match parse_document_id("abc") {
        Err(DocumentIdError::NotAnInteger(e)) => assert_eq!(e.to_string(), "invalid digit found in string"),
        Ok(v) => panic!("parsed {}", v),
    }
}

#[test]
fn backend_document_fields() {
    let d = PythonBackendDocument {
        collection_name: "notes".to_string(),
        name: "n".to_string(),
        title: "t".to_string(),
        filename: "f.md".to_string(),
        content: "c".to_string(),
    };
    assert_eq!(d.filename, "f.md");
}

#[test]
fn decodes_placements() {
    assert_eq!(decode_placement_row(&vec![SqlValue::Integer(4), SqlValue::Null]), Ok((4, None)));
    assert_eq!(
        decode_placement_row(&vec![SqlValue::Integer(4), SqlValue::Integer(2)]),
        Ok((4, Some(2)))
    );
    assert_eq!(
        decode_placement_row(&vec![SqlValue::Integer(4)]),
        Err(RowError::MissingColumn(1))
    );
    assert_eq!(
        decode_placement_row(&vec![text("x"), SqlValue::Null]),
        Err(RowError::WrongType(0))
    );
}
