//! The offline change log: which rows a successful mutation appends, and the
//! JSON payloads that describe each mutation's arguments.
use vstd::prelude::*;
use crate::mode::AppMode;
use crate::records::{SqlValue, Statement, is_text};
use crate::json_text::{
    json_string, json_string_of, opt_int_text, opt_int_string, int_text, int_string,
    lemma_int_text_injective, lemma_opt_int_text_injective,
};

verus! {

/// The mutating operations that the command layer performs.
#[derive(Clone, Copy, Debug, PartialEq, Eq, Structural)]
pub enum MutatingOp {
    CreateNewFolder,
    SaveDocument,
    UpdateDocument,
    SaveTimerSession,
}

/// The tag recorded for an operation.
pub open spec fn op_name(op: MutatingOp) -> Seq<char> {
    match op {
        MutatingOp::CreateNewFolder => "create_new_folder"@,
        MutatingOp::SaveDocument => "save_document"@,
        MutatingOp::UpdateDocument => "update_document"@,
        MutatingOp::SaveTimerSession => "save_timer_session"@,
    }
}

impl MutatingOp {
    /// The tag recorded for this operation.
    pub fn name(&self) -> (r: String)
        ensures
            r@ == op_name(*self),
    {
        match *self {
            MutatingOp::CreateNewFolder => String::from_str("create_new_folder"),
            MutatingOp::SaveDocument => String::from_str("save_document"),
            MutatingOp::UpdateDocument => String::from_str("update_document"),
            MutatingOp::SaveTimerSession => String::from_str("save_timer_session"),
        }
    }
}

/// The statement that appends one row; the store assigns `id` and `created_at`.
pub const INSERT_CHANGE_LOG: &'static str = "INSERT INTO change_log (op_type, payload) VALUES (?, ?)";

/// One row to append to the change log.
#[derive(Debug)]
pub struct ChangeLogEntry {
    pub op_type: String,
    pub payload: String,
}

/// The statement that appends `entry` to the change log.
pub fn change_log_statement(entry: &ChangeLogEntry) -> (r: Statement)
    ensures
        r.sql@ == INSERT_CHANGE_LOG@,
        r.params@.len() == 2,
        is_text(r.params@[0], entry.op_type@),
        is_text(r.params@[1], entry.payload@),
{
    let mut params: Vec<SqlValue> = Vec::new();
    params.push(SqlValue::Text(entry.op_type.clone()));
    params.push(SqlValue::Text(entry.payload.clone()));
    Statement { sql: INSERT_CHANGE_LOG, params }
}

/// A change-log row as the model sees it: its tag and its payload.
pub type LogRow = (Seq<char>, Seq<char>);

/// The rows that a successful mutation adds: one while offline, none online.
pub open spec fn rows_for(mode: AppMode, op: MutatingOp, payload: Seq<char>) -> Seq<LogRow> {
    match mode {
        AppMode::Offline => seq![(op_name(op), payload)],
        AppMode::Online => Seq::empty(),
    }
}

/// The rows that an entry to append stands for.
pub open spec fn rows_of(entry: Option<ChangeLogEntry>) -> Seq<LogRow> {
    match entry {
        Some(e) => seq![(e.op_type@, e.payload@)],
        None => Seq::empty(),
    }
}

/// The change log after a sequence of successful mutations, each given by its
/// operation and payload.
pub open spec fn log_after(mode: AppMode, log: Seq<LogRow>, mutations: Seq<(MutatingOp, Seq<char>)>) -> Seq<LogRow>
    decreases mutations.len(),
{
    if mutations.len() == 0 {
        log
    } else {
        log_after(mode, log, mutations.drop_last()) + rows_for(
            mode,
            mutations.last().0,
            mutations.last().1,
        )
    }
}

/// The row to append after `op` has succeeded: one while offline, none online.
pub fn record_if_offline(mode: AppMode, op: MutatingOp, payload: String) -> (r: Option<ChangeLogEntry>)
    ensures
        rows_of(r) == rows_for(mode, op, payload@),
        r is Some <==> mode == AppMode::Offline,
{
    match mode {
        AppMode::Online => None,
        AppMode::Offline => Some(ChangeLogEntry { op_type: op.name(), payload }),
    }
}

/// Settles a mutation once its write to the store is known: the caller's
/// result is the write's result alone, and a row to append is produced only
/// for a write that succeeded.
pub fn finish_mutation<E>(mode: AppMode, op: MutatingOp, write: Result<(), E>, payload: String) -> (r: (
    Result<(), E>,
    Option<ChangeLogEntry>,
))
    ensures
        r.0 == write,
        write is Err ==> r.1 is None,
        write is Ok ==> rows_of(r.1) == rows_for(mode, op, payload@),
{
    match write {
        Ok(done) => (Ok(done), record_if_offline(mode, op, payload)),
        Err(e) => (Err(e), None),
    }
}

/// While offline, each successful mutation adds exactly one row, in order, whose
/// tag is the operation's name and whose payload is the one it was given; the
/// rows already there are kept.
pub proof fn lemma_offline_one_row_each(log: Seq<LogRow>, mutations: Seq<(MutatingOp, Seq<char>)>)
    ensures
        log_after(AppMode::Offline, log, mutations).len() == log.len() + mutations.len(),
        log_after(AppMode::Offline, log, mutations).take(log.len() as int) == log,
        forall|i: int|
            0 <= i < mutations.len() ==> #[trigger] log_after(AppMode::Offline, log, mutations)[log.len() + i]
                == (op_name(mutations[i].0), mutations[i].1),
    decreases mutations.len(),
{
    let after = log_after(AppMode::Offline, log, mutations);
    if mutations.len() == 0 {
        assert(after.take(log.len() as int) =~= log);
    } else {
        let prev = mutations.drop_last();
        lemma_offline_one_row_each(log, prev);
        let before = log_after(AppMode::Offline, log, prev);
        assert(after == before.push((op_name(mutations.last().0), mutations.last().1)));
        assert(after.take(log.len() as int) =~= before.take(log.len() as int));
        assert forall|i: int| 0 <= i < mutations.len() implies #[trigger] after[log.len() + i] == (
            op_name(mutations[i].0),
            mutations[i].1,
        ) by {
            if i < mutations.len() - 1 {
                assert(prev[i] == mutations[i]);
                assert(after[log.len() + i] == before[log.len() + i]);
            }
        }
    }
}

/// While online, no mutation adds a row to the change log.
pub proof fn lemma_online_no_rows(log: Seq<LogRow>, mutations: Seq<(MutatingOp, Seq<char>)>)
    ensures
        log_after(AppMode::Online, log, mutations) == log,
    decreases mutations.len(),
{
    if mutations.len() > 0 {
        lemma_online_no_rows(log, mutations.drop_last());
        assert(log_after(AppMode::Online, log, mutations) =~= log);
    }
}

/// The payload of a folder creation, from the folder name's JSON literal.
pub open spec fn folder_payload_text(name_json: Seq<char>, parent_id: Option<i64>) -> Seq<char> {
    "{\"name\":"@ + name_json + ",\"parent_id\":"@ + opt_int_text(parent_id) + "}"@
}

/// The payload of a document save, from the document's JSON text.
pub open spec fn document_payload_text(doc_json: Seq<char>, folder_id: i64) -> Seq<char> {
    "{\"doc\":"@ + doc_json + ",\"folderId\":"@ + int_text(folder_id as int) + "}"@
}

/// The payload of a document update, from the stored document's JSON text.
pub open spec fn update_payload_text(id: i64, doc_json: Seq<char>, folder_id: Option<i64>) -> Seq<char> {
    "{\"doc\":"@ + doc_json + ",\"folderId\":"@ + opt_int_text(folder_id) + ",\"id\":"@ + int_text(
        id as int,
    ) + "}"@
}

/// The payload of a timer-session save, from the session's JSON text.
pub open spec fn timer_payload_text(session_json: Seq<char>) -> Seq<char> {
    "{\"session\":"@ + session_json + "}"@
}

/// Frames a folder creation's payload around the name's JSON literal.
pub fn frame_folder_payload(name_json: &str, parent_id: Option<i64>) -> (r: String)
    ensures
        r@ == folder_payload_text(name_json@, parent_id),
{
    let r = String::from_str("{\"name\":");
    let r = r.concat(name_json);
    let r = r.concat(",\"parent_id\":");
    let p = opt_int_string(parent_id);
    let r = r.concat(p.as_str());
    r.concat("}")
}

/// The payload of a folder creation.
pub fn folder_payload(name: &str, parent_id: Option<i64>) -> (r: String)
    ensures
        r@ == folder_payload_text(json_string_of(name@), parent_id),
{
    let name_json = json_string(name);
    frame_folder_payload(name_json.as_str(), parent_id)
}

/// The payload of a document save.
pub fn document_payload(doc_json: &str, folder_id: i64) -> (r: String)
    ensures
        r@ == document_payload_text(doc_json@, folder_id),
{
    let r = String::from_str("{\"doc\":");
    let r = r.concat(doc_json);
    let r = r.concat(",\"folderId\":");
    let f = int_string(folder_id);
    let r = r.concat(f.as_str());
    r.concat("}")
}

/// The payload of a document update.
pub fn update_payload(id: i64, doc_json: &str, folder_id: Option<i64>) -> (r: String)
    ensures
        r@ == update_payload_text(id, doc_json@, folder_id),
{
    let r = String::from_str("{\"doc\":");
    let r = r.concat(doc_json);
    let r = r.concat(",\"folderId\":");
    let f = opt_int_string(folder_id);
    let r = r.concat(f.as_str());
    let r = r.concat(",\"id\":");
    let i = int_string(id);
    let r = r.concat(i.as_str());
    r.concat("}")
}

/// The payload of a timer-session save.
pub fn timer_payload(session_json: &str) -> (r: String)
    ensures
        r@ == timer_payload_text(session_json@),
{
    let r = String::from_str("{\"session\":");
    let r = r.concat(session_json);
    r.concat("}")
}

/// Whether `s` holds no colon.
pub open spec fn colon_free(s: Seq<char>) -> bool {
    forall|i: int| 0 <= i < s.len() ==> #[trigger] s[i] != ':'
}

proof fn lemma_split_after_last_colon(a1: Seq<char>, b1: Seq<char>, a2: Seq<char>, b2: Seq<char>)
    requires
        a1 + b1 == a2 + b2,
        a1.len() > 0 && a1.last() == ':',
        a2.len() > 0 && a2.last() == ':',
        colon_free(b1),
        colon_free(b2),
    ensures
        a1 == a2,
        b1 == b2,
{
    let p = a1 + b1;
    assert(p.len() == a1.len() + b1.len());
    assert((a2 + b2).len() == a2.len() + b2.len());
    if b1.len() < b2.len() {
        let j = a1.len() - 1;
        assert(p[j] == a1.last());
        assert(p[j] == (a2 + b2)[j]);
        assert((a2 + b2)[j] == b2[j - a2.len()]);
    } else if b2.len() < b1.len() {
        let j = a2.len() - 1;
        assert((a2 + b2)[j] == a2.last());
        assert(p[j] == b1[j - a1.len()]);
    }
    assert(a1 =~= p.take(a1.len() as int));
    assert(a2 =~= (a2 + b2).take(a2.len() as int));
    assert(b1 =~= p.skip(a1.len() as int));
    assert(b2 =~= (a2 + b2).skip(a2.len() as int));
}

proof fn lemma_strip_frame(pre: Seq<char>, x1: Seq<char>, x2: Seq<char>, post: Seq<char>)
    requires
        pre + x1 + post == pre + x2 + post,
    ensures
        x1 == x2,
{
    let p1 = pre + x1 + post;
    let p2 = pre + x2 + post;
    assert(x1 =~= p1.subrange(pre.len() as int, p1.len() - post.len()));
    assert(x2 =~= p2.subrange(pre.len() as int, p2.len() - post.len()));
}

proof fn lemma_number_tail(n: Option<i64>)
    ensures
        colon_free(opt_int_text(n) + "}"@),
{
    reveal_strlit("}");
    lemma_opt_int_text_injective(n, n);
    let t = opt_int_text(n) + "}"@;
    assert forall|i: int| 0 <= i < t.len() implies #[trigger] t[i] != ':' by {
        if i < opt_int_text(n).len() {
            assert(t[i] == opt_int_text(n)[i]);
        }
    }
}

/// A folder-creation payload determines the name's JSON literal and the parent
/// id that it was framed from.
pub proof fn lemma_folder_payload_determines_arguments(
    name1: Seq<char>,
    parent1: Option<i64>,
    name2: Seq<char>,
    parent2: Option<i64>,
)
    ensures
        folder_payload_text(name1, parent1) == folder_payload_text(name2, parent2) ==> name1 == name2
            && parent1 == parent2,
{
    if folder_payload_text(name1, parent1) == folder_payload_text(name2, parent2) {
        reveal_strlit(",\"parent_id\":");
        let a1 = "{\"name\":"@ + name1 + ",\"parent_id\":"@;
        let a2 = "{\"name\":"@ + name2 + ",\"parent_id\":"@;
        let b1 = opt_int_text(parent1) + "}"@;
        let b2 = opt_int_text(parent2) + "}"@;
        assert(folder_payload_text(name1, parent1) =~= a1 + b1);
        assert(folder_payload_text(name2, parent2) =~= a2 + b2);
        lemma_number_tail(parent1);
        lemma_number_tail(parent2);
        lemma_split_after_last_colon(a1, b1, a2, b2);
        lemma_strip_frame("{\"name\":"@, name1, name2, ",\"parent_id\":"@);
        lemma_strip_frame(Seq::empty(), opt_int_text(parent1), opt_int_text(parent2), "}"@);
        assert(Seq::<char>::empty() + opt_int_text(parent1) =~= opt_int_text(parent1));
        assert(Seq::<char>::empty() + opt_int_text(parent2) =~= opt_int_text(parent2));
        lemma_opt_int_text_injective(parent1, parent2);
    }
}

/// A document-save payload determines the document text and the folder id
/// that it was framed from.
pub proof fn lemma_document_payload_determines_arguments(
    doc1: Seq<char>,
    folder1: i64,
    doc2: Seq<char>,
    folder2: i64,
)
    ensures
        document_payload_text(doc1, folder1) == document_payload_text(doc2, folder2) ==> doc1 == doc2
            && folder1 == folder2,
{
    if document_payload_text(doc1, folder1) == document_payload_text(doc2, folder2) {
        reveal_strlit(",\"folderId\":");
        let a1 = "{\"doc\":"@ + doc1 + ",\"folderId\":"@;
        let a2 = "{\"doc\":"@ + doc2 + ",\"folderId\":"@;
        let b1 = opt_int_text(Some(folder1)) + "}"@;
        let b2 = opt_int_text(Some(folder2)) + "}"@;
        assert(document_payload_text(doc1, folder1) =~= a1 + b1);
        assert(document_payload_text(doc2, folder2) =~= a2 + b2);
        lemma_number_tail(Some(folder1));
        lemma_number_tail(Some(folder2));
        lemma_split_after_last_colon(a1, b1, a2, b2);
        lemma_strip_frame("{\"doc\":"@, doc1, doc2, ",\"folderId\":"@);
        lemma_strip_frame(Seq::empty(), int_text(folder1 as int), int_text(folder2 as int), "}"@);
        assert(Seq::<char>::empty() + int_text(folder1 as int) =~= int_text(folder1 as int));
        assert(Seq::<char>::empty() + int_text(folder2 as int) =~= int_text(folder2 as int));
        lemma_int_text_injective(folder1 as int, folder2 as int);
    }
}

/// A document-update payload determines the id, the stored document's text and
/// the folder id that it was framed from.
pub proof fn lemma_update_payload_determines_arguments(
    id1: i64,
    doc1: Seq<char>,
    folder1: Option<i64>,
    id2: i64,
    doc2: Seq<char>,
    folder2: Option<i64>,
)
    ensures
        update_payload_text(id1, doc1, folder1) == update_payload_text(id2, doc2, folder2) ==> id1
            == id2 && doc1 == doc2 && folder1 == folder2,
{
    if update_payload_text(id1, doc1, folder1) == update_payload_text(id2, doc2, folder2) {
        reveal_strlit(",\"folderId\":");
        reveal_strlit(",\"id\":");
        let head1 = "{\"doc\":"@ + doc1 + ",\"folderId\":"@;
        let head2 = "{\"doc\":"@ + doc2 + ",\"folderId\":"@;
        let a1 = head1 + opt_int_text(folder1) + ",\"id\":"@;
        let a2 = head2 + opt_int_text(folder2) + ",\"id\":"@;
        let b1 = opt_int_text(Some(id1)) + "}"@;
        let b2 = opt_int_text(Some(id2)) + "}"@;
        assert(update_payload_text(id1, doc1, folder1) =~= a1 + b1);
        assert(update_payload_text(id2, doc2, folder2) =~= a2 + b2);
        lemma_number_tail(Some(id1));
        lemma_number_tail(Some(id2));
        lemma_split_after_last_colon(a1, b1, a2, b2);
        lemma_strip_frame(Seq::empty(), int_text(id1 as int), int_text(id2 as int), "}"@);
        assert(Seq::<char>::empty() + int_text(id1 as int) =~= int_text(id1 as int));
        assert(Seq::<char>::empty() + int_text(id2 as int) =~= int_text(id2 as int));
        lemma_int_text_injective(id1 as int, id2 as int);
        lemma_strip_frame(Seq::empty(), head1 + opt_int_text(folder1), head2 + opt_int_text(folder2), ",\"id\":"@);
        assert(Seq::<char>::empty() + (head1 + opt_int_text(folder1)) =~= head1 + opt_int_text(folder1));
        assert(Seq::<char>::empty() + (head2 + opt_int_text(folder2)) =~= head2 + opt_int_text(folder2));
        lemma_opt_int_text_injective(folder1, folder1);
        lemma_opt_int_text_injective(folder2, folder2);
        lemma_split_after_last_colon(head1, opt_int_text(folder1), head2, opt_int_text(folder2));
        lemma_opt_int_text_injective(folder1, folder2);
        lemma_strip_frame("{\"doc\":"@, doc1, doc2, ",\"folderId\":"@);
    }
}

/// A timer-session payload determines the session text that it was framed from.
pub proof fn lemma_timer_payload_determines_arguments(session1: Seq<char>, session2: Seq<char>)
    ensures
        timer_payload_text(session1) == timer_payload_text(session2) ==> session1 == session2,
{
    if timer_payload_text(session1) == timer_payload_text(session2) {
        lemma_strip_frame("{\"session\":"@, session1, session2, "}"@);
    }
}

} // verus!
