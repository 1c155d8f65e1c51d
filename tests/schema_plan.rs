use note_store::schema::{schema_plan, SchemaStep, Table};

#[test]
fn plan_enables_foreign_keys_then_creates_four_tables() {
    let plan = schema_plan();
    assert_eq!(
        plan,
        vec![
            SchemaStep::EnableForeignKeys,
            SchemaStep::CreateTableIfAbsent(Table::Folders),
            SchemaStep::CreateTableIfAbsent(Table::Documents),
            SchemaStep::CreateTableIfAbsent(Table::TimerSessions),
            SchemaStep::CreateTableIfAbsent(Table::ChangeLog),
        ]
    );
}

#[test]
fn pragma_text() {
    assert_eq!(SchemaStep::EnableForeignKeys.sql(), "PRAGMA foreign_keys = ON");
}

#[test]
fn every_create_is_conditional() {
    for step in schema_plan().into_iter().skip(1) {
        assert!(step.sql().starts_with("CREATE TABLE IF NOT EXISTS "));
    }
}

#[test]
fn documents_reference_folders_with_set_null() {
    let sql = SchemaStep::CreateTableIfAbsent(Table::Documents).sql();
    assert!(sql.starts_with("CREATE TABLE IF NOT EXISTS documents ("));
    assert!(sql.contains("FOREIGN KEY(folder_id) REFERENCES folders(id) ON DELETE SET NULL"));
}

#[test]
fn change_log_columns() {
    let sql = SchemaStep::CreateTableIfAbsent(Table::ChangeLog).sql();
    assert!(sql.starts_with("CREATE TABLE IF NOT EXISTS change_log ("));
    assert!(sql.contains("op_type TEXT NOT NULL"));
    assert!(sql.contains("payload TEXT NOT NULL"));
    assert!(sql.contains("created_at TEXT DEFAULT CURRENT_TIMESTAMP"));
}

#[test]
fn timer_sessions_columns() {
    let sql = SchemaStep::CreateTableIfAbsent(Table::TimerSessions).sql();
    assert!(sql.starts_with("CREATE TABLE IF NOT EXISTS timer_sessions ("));
    assert!(sql.contains("extended BOOLEAN NOT NULL"));
    assert!(sql.contains("extended_stop_time TEXT"));
}

#[test]
fn folders_columns() {
    let sql = SchemaStep::CreateTableIfAbsent(Table::Folders).sql();
    assert!(sql.starts_with("CREATE TABLE IF NOT EXISTS folders ("));
    assert!(sql.contains("name TEXT NOT NULL"));
    assert!(sql.contains("parent_id INTEGER"));
}
