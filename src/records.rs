//! The records of the store, how rows decode into them, and the parameters of
//! the statements that write them.
use vstd::prelude::*;
use crate::json_text::{int_text, int_string, extract_title, json_parses};

verus! {

/// A stored document.
#[derive(Debug)]
pub struct Document {
    pub id: i64,
    pub title: String,
    pub time: String,
    pub content: String,
    pub folder_id: Option<i64>,
}

/// A folder, with the ids of the documents filed in it.
#[derive(Debug)]
pub struct Folder {
    pub id: i64,
    pub name: String,
    pub parent_id: Option<i64>,
    pub documents: Vec<i64>,
}

/// A document as handed to the indexing backend.
#[derive(Debug)]
pub struct PythonBackendDocument {
    pub collection_name: String,
    pub name: String,
    pub title: String,
    pub filename: String,
    pub content: String,
}

/// A finished work/break timer session.
#[derive(Clone, Debug)]
pub struct TimerSession {
    pub work_duration: i32,
    pub break_duration: i32,
    pub start_time_work: String,
    pub stop_time_work: String,
    pub start_time_break: Option<String>,
    pub stop_time_break: Option<String>,
    pub extended: bool,
    pub extended_start_time: Option<String>,
    pub extended_stop_time: Option<String>,
}

/// A value of a store column. A floating-point value is only noted as such.
#[derive(Debug)]
pub enum SqlValue {
    Null,
    Integer(i64),
    Real,
    Text(String),
    Blob(Vec<u8>),
}

/// Why a row did not decode.
#[derive(Clone, Copy, Debug, PartialEq, Eq, Structural)]
pub enum RowError {
    /// The row has no column at this index.
    MissingColumn(usize),
    /// The column at this index is null where a value is required.
    NullValue(usize),
    /// The column at this index holds a value of another type.
    WrongType(usize),
}

/// Why a single document could not be loaded.
#[derive(Clone, Copy, Debug, PartialEq, Eq, Structural)]
pub enum LoadError {
    /// No row matched the id.
    NotFound,
    Row(RowError),
}

/// The integer in column `i`, or why there is none.
pub open spec fn integer_at(row: Seq<SqlValue>, i: int) -> Result<i64, RowError> {
    if i >= row.len() {
        Err(RowError::MissingColumn(i as usize))
    } else {
        match row[i] {
            SqlValue::Integer(v) => Ok(v),
            SqlValue::Null => Err(RowError::NullValue(i as usize)),
            _ => Err(RowError::WrongType(i as usize)),
        }
    }
}

/// The text in column `i`, or why there is none.
pub open spec fn text_at(row: Seq<SqlValue>, i: int) -> Result<Seq<char>, RowError> {
    if i >= row.len() {
        Err(RowError::MissingColumn(i as usize))
    } else {
        match row[i] {
            SqlValue::Text(s) => Ok(s@),
            SqlValue::Null => Err(RowError::NullValue(i as usize)),
            _ => Err(RowError::WrongType(i as usize)),
        }
    }
}

/// The optional integer in column `i`, or why there is none.
pub open spec fn opt_integer_at(row: Seq<SqlValue>, i: int) -> Result<Option<i64>, RowError> {
    if i >= row.len() {
        Err(RowError::MissingColumn(i as usize))
    } else {
        match row[i] {
            SqlValue::Integer(v) => Ok(Some(v)),
            SqlValue::Null => Ok(None),
            _ => Err(RowError::WrongType(i as usize)),
        }
    }
}

fn integer_column(row: &Vec<SqlValue>, i: usize) -> (r: Result<i64, RowError>)
    ensures
        r == integer_at(row@, i as int),
{
    if i >= row.len() {
        return Err(RowError::MissingColumn(i));
    }
    match &row[i] {
        SqlValue::Integer(v) => Ok(*v),
        SqlValue::Null => Err(RowError::NullValue(i)),
        _ => Err(RowError::WrongType(i)),
    }
}

fn text_column(row: &Vec<SqlValue>, i: usize) -> (r: Result<String, RowError>)
    ensures
        match r {
            Ok(s) => text_at(row@, i as int) == Ok::<Seq<char>, RowError>(s@),
            Err(e) => text_at(row@, i as int) == Err::<Seq<char>, RowError>(e),
        },
{
    if i >= row.len() {
        return Err(RowError::MissingColumn(i));
    }
    match &row[i] {
        SqlValue::Text(s) => Ok(s.clone()),
        SqlValue::Null => Err(RowError::NullValue(i)),
        _ => Err(RowError::WrongType(i)),
    }
}

fn opt_integer_column(row: &Vec<SqlValue>, i: usize) -> (r: Result<Option<i64>, RowError>)
    ensures
        r == opt_integer_at(row@, i as int),
{
    if i >= row.len() {
        return Err(RowError::MissingColumn(i));
    }
    match &row[i] {
        SqlValue::Integer(v) => Ok(Some(*v)),
        SqlValue::Null => Ok(None),
        _ => Err(RowError::WrongType(i)),
    }
}

/// Whether `d` is the document that a row `(id, title, time, content,
/// folder_id)` holds.
pub open spec fn document_of_row(row: Seq<SqlValue>, d: Document) -> bool {
    integer_at(row, 0) == Ok::<i64, RowError>(d.id) && text_at(row, 1) == Ok::<Seq<char>, RowError>(
        d.title@,
    ) && text_at(row, 2) == Ok::<Seq<char>, RowError>(d.time@) && text_at(row, 3) == Ok::<
        Seq<char>,
        RowError,
    >(d.content@) && opt_integer_at(row, 4) == Ok::<Option<i64>, RowError>(d.folder_id)
}

/// The first column of a document row that fails to decode, if any.
pub open spec fn document_row_error(row: Seq<SqlValue>) -> Option<RowError> {
    if integer_at(row, 0) is Err {
        Some(integer_at(row, 0)->Err_0)
    } else if text_at(row, 1) is Err {
        Some(text_at(row, 1)->Err_0)
    } else if text_at(row, 2) is Err {
        Some(text_at(row, 2)->Err_0)
    } else if text_at(row, 3) is Err {
        Some(text_at(row, 3)->Err_0)
    } else if opt_integer_at(row, 4) is Err {
        Some(opt_integer_at(row, 4)->Err_0)
    } else {
        None
    }
}

/// Decodes a row `(id, title, time, content, folder_id)` into a document.
pub fn decode_document_row(row: &Vec<SqlValue>) -> (r: Result<Document, RowError>)
    ensures
        match r {
            Ok(d) => document_row_error(row@) is None && document_of_row(row@, d),
            Err(e) => document_row_error(row@) == Some(e),
        },
{
    let id = match integer_column(row, 0) {
        Ok(v) => v,
        Err(e) => return Err(e),
    };
    let title = match text_column(row, 1) {
        Ok(v) => v,
        Err(e) => return Err(e),
    };
    let time = match text_column(row, 2) {
        Ok(v) => v,
        Err(e) => return Err(e),
    };
    let content = match text_column(row, 3) {
        Ok(v) => v,
        Err(e) => return Err(e),
    };
    let folder_id = match opt_integer_column(row, 4) {
        Ok(v) => v,
        Err(e) => return Err(e),
    };
    Ok(Document { id, title, time, content, folder_id })
}

/// Decodes every row into a document, in order, stopping at the first row that
/// does not decode.
pub fn decode_documents(rows: &Vec<Vec<SqlValue>>) -> (r: Result<Vec<Document>, RowError>)
    ensures
        match r {
            Ok(docs) => docs@.len() == rows@.len() && forall|i: int|
                0 <= i < rows@.len() ==> document_row_error(#[trigger] rows@[i]@) is None
                    && document_of_row(rows@[i]@, docs@[i]),
            Err(e) => exists|k: int|
                0 <= k < rows@.len() && document_row_error(#[trigger] rows@[k]@) == Some(e)
                    && forall|j: int| 0 <= j < k ==> document_row_error(#[trigger] rows@[j]@) is None,
        },
{
    let mut docs: Vec<Document> = Vec::new();
    let mut i: usize = 0;
    while i < rows.len()
        invariant
            i <= rows@.len(),
            docs@.len() == i,
            forall|j: int|
                0 <= j < i ==> document_row_error(#[trigger] rows@[j]@) is None && document_of_row(
                    rows@[j]@,
                    docs@[j],
                ),
        decreases rows@.len() - i,
    {
        match decode_document_row(&rows[i]) {
            Ok(d) => docs.push(d),
            Err(e) => {
                assert(document_row_error(rows@[i as int]@) == Some(e));
                return Err(e);
            },
        }
        i = i + 1;
    }
    Ok(docs)
}

/// The document in the first row that a lookup by id returned.
pub fn document_from_rows(rows: &Vec<Vec<SqlValue>>) -> (r: Result<Document, LoadError>)
    ensures
        rows@.len() == 0 ==> r == Err::<Document, LoadError>(LoadError::NotFound),
        rows@.len() > 0 ==> match r {
            Ok(d) => document_row_error(rows@[0]@) is None && document_of_row(rows@[0]@, d),
            Err(e) => document_row_error(rows@[0]@) matches Some(x) && e == LoadError::Row(x),
        },
{
    if rows.len() == 0 {
        return Err(LoadError::NotFound);
    }
    match decode_document_row(&rows[0]) {
        Ok(d) => Ok(d),
        Err(e) => Err(LoadError::Row(e)),
    }
}

/// The content column of the first row that a lookup by id returned: the
/// editor document's JSON text.
pub fn editor_content_from_rows(rows: &Vec<Vec<SqlValue>>) -> (r: Result<String, LoadError>)
    ensures
        rows@.len() == 0 ==> r == Err::<String, LoadError>(LoadError::NotFound),
        rows@.len() > 0 ==> match r {
            Ok(s) => text_at(rows@[0]@, 3) == Ok::<Seq<char>, RowError>(s@),
            Err(e) => text_at(rows@[0]@, 3) matches Err(x) && e == LoadError::Row(x),
        },
{
    if rows.len() == 0 {
        return Err(LoadError::NotFound);
    }
    match text_column(&rows[0], 3) {
        Ok(s) => Ok(s),
        Err(e) => Err(LoadError::Row(e)),
    }
}

/// A folder row `(id, name, parent_id)`, decoded.
pub struct FolderRow {
    pub id: i64,
    pub name: String,
    pub parent_id: Option<i64>,
}

/// Decodes a row `(id, name, parent_id)` of the folders table.
pub fn decode_folder_row(row: &Vec<SqlValue>) -> (r: Result<FolderRow, RowError>)
    ensures
        match r {
            Ok(f) => integer_at(row@, 0) == Ok::<i64, RowError>(f.id) && text_at(row@, 1) == Ok::<
                Seq<char>,
                RowError,
            >(f.name@) && opt_integer_at(row@, 2) == Ok::<Option<i64>, RowError>(f.parent_id),
            Err(e) => (integer_at(row@, 0) == Err::<i64, RowError>(e)) || (integer_at(row@, 0) is Ok
                && text_at(row@, 1) == Err::<Seq<char>, RowError>(e)) || (integer_at(row@, 0) is Ok
                && text_at(row@, 1) is Ok && opt_integer_at(row@, 2) == Err::<Option<i64>, RowError>(e)),
        },
{
    let id = match integer_column(row, 0) {
        Ok(v) => v,
        Err(e) => return Err(e),
    };
    let name = match text_column(row, 1) {
        Ok(v) => v,
        Err(e) => return Err(e),
    };
    let parent_id = match opt_integer_column(row, 2) {
        Ok(v) => v,
        Err(e) => return Err(e),
    };
    Ok(FolderRow { id, name, parent_id })
}

/// Decodes a row `(id, folder_id)` of the documents table into a placement.
pub fn decode_placement_row(row: &Vec<SqlValue>) -> (r: Result<(i64, Option<i64>), RowError>)
    ensures
        match r {
            Ok(p) => integer_at(row@, 0) == Ok::<i64, RowError>(p.0) && opt_integer_at(row@, 1)
                == Ok::<Option<i64>, RowError>(p.1),
            Err(e) => (integer_at(row@, 0) == Err::<i64, RowError>(e)) || (integer_at(row@, 0) is Ok
                && opt_integer_at(row@, 1) == Err::<Option<i64>, RowError>(e)),
        },
{
    let id = match integer_column(row, 0) {
        Ok(v) => v,
        Err(e) => return Err(e),
    };
    let folder_id = match opt_integer_column(row, 1) {
        Ok(v) => v,
        Err(e) => return Err(e),
    };
    Ok((id, folder_id))
}

/// The ids of the documents filed in folder `folder`, in the order of
/// `placements`, a list of `(document id, folder id)` pairs.
pub open spec fn documents_in(placements: Seq<(i64, Option<i64>)>, folder: i64) -> Seq<i64>
    decreases placements.len(),
{
    if placements.len() == 0 {
        Seq::empty()
    } else {
        let rest = documents_in(placements.drop_last(), folder);
        if placements.last().1 == Some(folder) {
            rest.push(placements.last().0)
        } else {
            rest
        }
    }
}

/// The ids of the documents filed in folder `folder`.
pub fn documents_in_folder(placements: &Vec<(i64, Option<i64>)>, folder: i64) -> (r: Vec<i64>)
    ensures
        r@ == documents_in(placements@, folder),
{
    let mut r: Vec<i64> = Vec::new();
    let mut i: usize = 0;
    while i < placements.len()
        invariant
            i <= placements@.len(),
            r@ == documents_in(placements@.take(i as int), folder),
        decreases placements@.len() - i,
    {
        let (doc, place) = placements[i];
        assert(placements@.take(i + 1).drop_last() =~= placements@.take(i as int));
        assert(placements@.take(i + 1).last() == placements@[i as int]);
        if place == Some(folder) {
            r.push(doc);
        }
        i = i + 1;
    }
    assert(placements@.take(placements@.len() as int) =~= placements@);
    r
}

/// Projects folders from the folders table and the documents' placements:
/// each folder lists, in order, the documents whose folder id is its id.
pub fn assemble_folders(folders: &Vec<FolderRow>, placements: &Vec<(i64, Option<i64>)>) -> (r: Vec<Folder>)
    ensures
        r@.len() == folders@.len(),
        forall|i: int|
            0 <= i < r@.len() ==> (#[trigger] r@[i]).id == folders@[i].id && r@[i].name@
                == folders@[i].name@ && r@[i].parent_id == folders@[i].parent_id
                && r@[i].documents@ == documents_in(placements@, folders@[i].id),
{
    let mut r: Vec<Folder> = Vec::new();
    let mut i: usize = 0;
    while i < folders.len()
        invariant
            i <= folders@.len(),
            r@.len() == i,
            forall|j: int|
                0 <= j < i ==> (#[trigger] r@[j]).id == folders@[j].id && r@[j].name@
                    == folders@[j].name@ && r@[j].parent_id == folders@[j].parent_id
                    && r@[j].documents@ == documents_in(placements@, folders@[j].id),
        decreases folders@.len() - i,
    {
        let row = &folders[i];
        let documents = documents_in_folder(placements, row.id);
        r.push(Folder { id: row.id, name: row.name.clone(), parent_id: row.parent_id, documents });
        i = i + 1;
    }
    r
}

pub const SELECT_DOCUMENTS: &'static str = "SELECT id, title, time, content, folder_id FROM documents";

pub const SELECT_DOCUMENT_BY_ID: &'static str = "SELECT id, title, time, content, folder_id FROM documents WHERE id = ?1";

pub const SELECT_FOLDERS: &'static str = "SELECT id, name, parent_id FROM folders";

pub const SELECT_PLACEMENTS: &'static str = "SELECT id, folder_id FROM documents";

pub const INSERT_DOCUMENT: &'static str = "INSERT INTO documents (title, time, content, folder_id) VALUES (?1, ?2, ?3, ?4)";

pub const UPDATE_DOCUMENT_AND_FOLDER: &'static str = "UPDATE documents SET title = ?1, time = ?2, content = ?3, folder_id = ?4 WHERE id = ?5";

pub const UPDATE_DOCUMENT_KEEP_FOLDER: &'static str = "UPDATE documents SET title = ?1, time = ?2, content = ?3 WHERE id = ?4";

pub const INSERT_FOLDER: &'static str = "INSERT INTO folders (name, parent_id) VALUES (?1, ?2)";

pub const INSERT_TIMER_SESSION: &'static str = "INSERT INTO timer_sessions (work_duration, break_duration, start_time_work, stop_time_work, start_time_break, stop_time_break, extended, extended_start_time, extended_stop_time) VALUES (?1, ?2, ?3, ?4, ?5, ?6, ?7, ?8, ?9)";

/// The title given to a new document whose content yields none.
pub const NEW_DOCUMENT_TITLE: &'static str = "No title found";

/// The title given to an updated document whose content yields none.
pub const UPDATED_DOCUMENT_TITLE: &'static str = "Untitled";

/// A statement and the values bound to its parameters, in order.
#[derive(Debug)]
pub struct Statement {
    pub sql: &'static str,
    pub params: Vec<SqlValue>,
}

/// Whether `v` binds the text `s`.
pub open spec fn is_text(v: SqlValue, s: Seq<char>) -> bool {
    v matches SqlValue::Text(t) && t@ == s
}

/// Whether `v` binds the optional text `s`: the text, or null.
pub open spec fn is_opt_text(v: SqlValue, s: Option<String>) -> bool {
    match s {
        Some(t) => is_text(v, t@),
        None => v is Null,
    }
}

/// Whether `v` binds the optional integer `n`: the integer, or null.
pub open spec fn is_opt_integer(v: SqlValue, n: Option<i64>) -> bool {
    match n {
        Some(k) => v == SqlValue::Integer(k),
        None => v is Null,
    }
}

fn text_value(s: &str) -> (r: SqlValue)
    ensures
        is_text(r, s@),
{
    SqlValue::Text(String::from_str(s))
}

fn opt_text_value(s: &Option<String>) -> (r: SqlValue)
    ensures
        is_opt_text(r, *s),
{
    match s {
        Some(t) => SqlValue::Text(t.clone()),
        None => SqlValue::Null,
    }
}

fn opt_integer_value(n: Option<i64>) -> (r: SqlValue)
    ensures
        is_opt_integer(r, n),
{
    match n {
        Some(k) => SqlValue::Integer(k),
        None => SqlValue::Null,
    }
}

/// The update of document `id` to the fields of `doc`. Without a folder id the
/// document stays in the folder it is in.
pub fn update_statement(id: i64, doc: &Document) -> (r: Statement)
    ensures
        match doc.folder_id {
            Some(f) => r.sql@ == UPDATE_DOCUMENT_AND_FOLDER@ && r.params@.len() == 5 && is_text(
                r.params@[0],
                doc.title@,
            ) && is_text(r.params@[1], doc.time@) && is_text(r.params@[2], doc.content@)
                && r.params@[3] == SqlValue::Integer(f) && r.params@[4] == SqlValue::Integer(id),
            None => r.sql@ == UPDATE_DOCUMENT_KEEP_FOLDER@ && r.params@.len() == 4 && is_text(
                r.params@[0],
                doc.title@,
            ) && is_text(r.params@[1], doc.time@) && is_text(r.params@[2], doc.content@)
                && r.params@[3] == SqlValue::Integer(id),
        },
{
    let mut params: Vec<SqlValue> = Vec::new();
    params.push(text_value(doc.title.as_str()));
    params.push(text_value(doc.time.as_str()));
    params.push(text_value(doc.content.as_str()));
    match doc.folder_id {
        Some(f) => {
            params.push(SqlValue::Integer(f));
            params.push(SqlValue::Integer(id));
            Statement { sql: UPDATE_DOCUMENT_AND_FOLDER, params }
        },
        None => {
            params.push(SqlValue::Integer(id));
            Statement { sql: UPDATE_DOCUMENT_KEEP_FOLDER, params }
        },
    }
}

/// The insertion of a folder.
pub fn insert_folder_statement(name: &str, parent_id: Option<i64>) -> (r: Statement)
    ensures
        r.sql@ == INSERT_FOLDER@,
        r.params@.len() == 2,
        is_text(r.params@[0], name@),
        is_opt_integer(r.params@[1], parent_id),
{
    let mut params: Vec<SqlValue> = Vec::new();
    params.push(text_value(name));
    params.push(opt_integer_value(parent_id));
    Statement { sql: INSERT_FOLDER, params }
}

/// The insertion of a timer session; the extension flag is stored as 1 or 0.
pub fn timer_session_statement(session: &TimerSession) -> (r: Statement)
    ensures
        r.sql@ == INSERT_TIMER_SESSION@,
        r.params@.len() == 9,
        r.params@[0] == SqlValue::Integer(session.work_duration as i64),
        r.params@[1] == SqlValue::Integer(session.break_duration as i64),
        is_text(r.params@[2], session.start_time_work@),
        is_text(r.params@[3], session.stop_time_work@),
        is_opt_text(r.params@[4], session.start_time_break),
        is_opt_text(r.params@[5], session.stop_time_break),
        r.params@[6] == SqlValue::Integer(if session.extended { 1 } else { 0 }),
        is_opt_text(r.params@[7], session.extended_start_time),
        is_opt_text(r.params@[8], session.extended_stop_time),
{
    let mut params: Vec<SqlValue> = Vec::new();
    params.push(SqlValue::Integer(session.work_duration as i64));
    params.push(SqlValue::Integer(session.break_duration as i64));
    params.push(text_value(session.start_time_work.as_str()));
    params.push(text_value(session.stop_time_work.as_str()));
    params.push(opt_text_value(&session.start_time_break));
    params.push(opt_text_value(&session.stop_time_break));
    params.push(SqlValue::Integer(if session.extended { 1 } else { 0 }));
    params.push(opt_text_value(&session.extended_start_time));
    params.push(opt_text_value(&session.extended_stop_time));
    Statement { sql: INSERT_TIMER_SESSION, params }
}

/// The title to store: the one found in the content, else the fallback.
pub open spec fn title_or(found: Option<String>, fallback: Seq<char>) -> Seq<char> {
    match found {
        Some(t) => t@,
        None => fallback,
    }
}

/// The insertion of a new document with the title found in its content, if any.
pub fn new_document_statement(title: Option<String>, doc_json: &str, time: i64, folder_id: i64) -> (r: Statement)
    ensures
        r.sql@ == INSERT_DOCUMENT@,
        r.params@.len() == 4,
        is_text(r.params@[0], title_or(title, NEW_DOCUMENT_TITLE@)),
        r.params@[1] == SqlValue::Integer(time),
        is_text(r.params@[2], doc_json@),
        r.params@[3] == SqlValue::Integer(folder_id),
{
    let title_value = match title {
        Some(t) => SqlValue::Text(t),
        None => text_value(NEW_DOCUMENT_TITLE),
    };
    let mut params: Vec<SqlValue> = Vec::new();
    params.push(title_value);
    params.push(SqlValue::Integer(time));
    params.push(text_value(doc_json));
    params.push(SqlValue::Integer(folder_id));
    Statement { sql: INSERT_DOCUMENT, params }
}

/// The insertion of a new document from its JSON text, titled from its first
/// block.
pub fn save_document_statement(doc_json: &str, time: i64, folder_id: i64) -> (r: Statement)
    ensures
        r.sql@ == INSERT_DOCUMENT@,
        r.params@.len() == 4,
        r.params@[0] is Text,
        !json_parses(doc_json@) ==> is_text(r.params@[0], NEW_DOCUMENT_TITLE@),
        r.params@[1] == SqlValue::Integer(time),
        is_text(r.params@[2], doc_json@),
        r.params@[3] == SqlValue::Integer(folder_id),
{
    let title = extract_title(doc_json);
    new_document_statement(title, doc_json, time, folder_id)
}

/// The stored form of an edited document, with the title found in its content,
/// if any.
pub fn updated_document(id: i64, title: Option<String>, doc_json: String, time: i64, folder_id: Option<i64>) -> (r: Document)
    ensures
        r.id == id,
        r.title@ == title_or(title, UPDATED_DOCUMENT_TITLE@),
        r.time@ == int_text(time as int),
        r.content@ == doc_json@,
        r.folder_id == folder_id,
{
    let title = match title {
        Some(t) => t,
        None => String::from_str(UPDATED_DOCUMENT_TITLE),
    };
    Document { id, title, time: int_string(time), content: doc_json, folder_id }
}

/// The stored form of an edited document from its JSON text, titled from its
/// first block.
pub fn prepare_update(id: i64, doc_json: String, time: i64, folder_id: Option<i64>) -> (r: Document)
    ensures
        r.id == id,
        !json_parses(doc_json@) ==> r.title@ == UPDATED_DOCUMENT_TITLE@,
        r.time@ == int_text(time as int),
        r.content@ == doc_json@,
        r.folder_id == folder_id,
{
    let title = extract_title(doc_json.as_str());
    updated_document(id, title, doc_json, time, folder_id)
}

/// Whether `c` is an ASCII decimal digit.
pub open spec fn is_digit(c: char) -> bool {
    '0' <= c && c <= '9'
}

/// The value of a string of decimal digits.
pub open spec fn digits_value(s: Seq<char>) -> int
    decreases s.len(),
{
    if s.len() == 0 {
        0
    } else {
        digits_value(s.drop_last()) * 10 + (s.last() as u32 - '0' as u32)
    }
}

/// The integer that `s` writes: an optional `+` or `-` followed by one or more
/// decimal digits and nothing else.
pub open spec fn decimal_value(s: Seq<char>) -> Option<int> {
    let negative = s.len() > 0 && s[0] == '-';
    let body = if s.len() > 0 && (s[0] == '-' || s[0] == '+') {
        s.drop_first()
    } else {
        s
    };
    if body.len() > 0 && forall|i: int| 0 <= i < body.len() ==> is_digit(#[trigger] body[i]) {
        Some(if negative { -digits_value(body) } else { digits_value(body) })
    } else {
        None
    }
}

/// The `i64` that `s` writes, if it writes one in range.
pub open spec fn parsed_i64(s: Seq<char>) -> Option<i64> {
    match decimal_value(s) {
        Some(v) => if i64::MIN <= v && v <= i64::MAX {
            Some(v as i64)
        } else {
            None
        },
        None => None,
    }
}

/// std's error for text that is not an integer, carried through unopened.
#[verifier::external_type_specification]
#[verifier::external_body]
pub struct ExParseIntError(core::num::ParseIntError);

/// Relies on `i64`'s `FromStr`: an optional sign followed by decimal digits
/// only, in range; anything else is an error.
#[verifier::external_body]
fn parse_i64(s: &str) -> (r: Result<i64, core::num::ParseIntError>)
    ensures
        match r {
            Ok(v) => parsed_i64(s@) == Some(v),
            Err(_) => parsed_i64(s@) is None,
        },
{
    s.parse::<i64>()
}

/// Why a folder entry's text is not a document id.
#[derive(Debug)]
pub enum DocumentIdError {
    /// The text is not an `i64`; the parse error says why.
    NotAnInteger(core::num::ParseIntError),
}

/// The document id written in `name`, as a folder entry hands it over.
pub fn parse_document_id(name: &str) -> (r: Result<i64, DocumentIdError>)
    ensures
        match r {
            Ok(v) => parsed_i64(name@) == Some(v),
            Err(_) => parsed_i64(name@) is None,
        },
{
    match parse_i64(name) {
        Ok(v) => Ok(v),
        Err(e) => Err(DocumentIdError::NotAnInteger(e)),
    }
}

} // verus!
