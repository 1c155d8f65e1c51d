//! The persistent schema: which statements bring a store up to date, and a
//! model of what those statements do to the store's catalog.
use vstd::prelude::*;

verus! {

/// The four tables of the store.
#[derive(Clone, Copy, Debug, PartialEq, Eq, Structural)]
pub enum Table {
    Folders,
    Documents,
    TimerSessions,
    ChangeLog,
}

/// One statement of the schema plan.
#[derive(Clone, Copy, Debug, PartialEq, Eq, Structural)]
pub enum SchemaStep {
    /// Turn on referential-integrity enforcement for the connection.
    EnableForeignKeys,
    /// Create the table unless it is already there.
    CreateTableIfAbsent(Table),
}

/// The column definitions of each table, as the store records them.
pub open spec fn definition_of(table: Table) -> Seq<char> {
    match table {
        Table::Folders => FOLDERS_COLUMNS@,
        Table::Documents => DOCUMENTS_COLUMNS@,
        Table::TimerSessions => TIMER_SESSIONS_COLUMNS@,
        Table::ChangeLog => CHANGE_LOG_COLUMNS@,
    }
}

pub const FOLDERS_COLUMNS: &'static str = "(
            id INTEGER PRIMARY KEY AUTOINCREMENT,
            name TEXT NOT NULL,
            parent_id INTEGER
        )";

pub const DOCUMENTS_COLUMNS: &'static str = "(
            id INTEGER PRIMARY KEY AUTOINCREMENT,
            title TEXT NOT NULL,
            time TEXT NOT NULL,
            content TEXT NOT NULL,
            folder_id INTEGER,
            FOREIGN KEY(folder_id) REFERENCES folders(id) ON DELETE SET NULL
        )";

pub const TIMER_SESSIONS_COLUMNS: &'static str = "(
            id INTEGER PRIMARY KEY AUTOINCREMENT,
            work_duration INTEGER NOT NULL,
            break_duration INTEGER NOT NULL,
            start_time_work TEXT NOT NULL,
            stop_time_work TEXT NOT NULL,
            start_time_break TEXT,
            stop_time_break TEXT,
            extended BOOLEAN NOT NULL,
            extended_start_time TEXT,
            extended_stop_time TEXT
        )";

pub const CHANGE_LOG_COLUMNS: &'static str = "(
            id INTEGER PRIMARY KEY AUTOINCREMENT,
            op_type TEXT NOT NULL,
            payload TEXT NOT NULL,
            created_at TEXT DEFAULT CURRENT_TIMESTAMP
        )";

pub const ENABLE_FOREIGN_KEYS: &'static str = "PRAGMA foreign_keys = ON";

pub const CREATE_FOLDERS: &'static str = "CREATE TABLE IF NOT EXISTS folders";

pub const CREATE_DOCUMENTS: &'static str = "CREATE TABLE IF NOT EXISTS documents";

pub const CREATE_TIMER_SESSIONS: &'static str = "CREATE TABLE IF NOT EXISTS timer_sessions";

pub const CREATE_CHANGE_LOG: &'static str = "CREATE TABLE IF NOT EXISTS change_log";

/// The statement prefix that creates `table` if it is absent.
pub open spec fn create_prefix(table: Table) -> Seq<char> {
    match table {
        Table::Folders => CREATE_FOLDERS@,
        Table::Documents => CREATE_DOCUMENTS@,
        Table::TimerSessions => CREATE_TIMER_SESSIONS@,
        Table::ChangeLog => CREATE_CHANGE_LOG@,
    }
}

/// The SQL text of a step.
pub open spec fn sql_of(step: SchemaStep) -> Seq<char> {
    match step {
        SchemaStep::EnableForeignKeys => ENABLE_FOREIGN_KEYS@,
        SchemaStep::CreateTableIfAbsent(t) => create_prefix(t) + " "@ + definition_of(t),
    }
}

/// The steps that bring a store's schema up to date, in order.
pub open spec fn plan() -> Seq<SchemaStep> {
    seq![
        SchemaStep::EnableForeignKeys,
        SchemaStep::CreateTableIfAbsent(Table::Folders),
        SchemaStep::CreateTableIfAbsent(Table::Documents),
        SchemaStep::CreateTableIfAbsent(Table::TimerSessions),
        SchemaStep::CreateTableIfAbsent(Table::ChangeLog),
    ]
}

/// What a store's catalog holds: whether foreign keys are enforced, and the
/// column definitions of each table present.
pub struct Catalog {
    pub foreign_keys: bool,
    pub tables: Map<Table, Seq<char>>,
}

/// The catalog after one step: creating a table that is present changes nothing.
pub open spec fn apply_step(c: Catalog, step: SchemaStep) -> Catalog {
    match step {
        SchemaStep::EnableForeignKeys => Catalog { foreign_keys: true, tables: c.tables },
        SchemaStep::CreateTableIfAbsent(t) => if c.tables.contains_key(t) {
            c
        } else {
            Catalog { foreign_keys: c.foreign_keys, tables: c.tables.insert(t, definition_of(t)) }
        },
    }
}

/// The catalog after the steps in order.
pub open spec fn apply_steps(c: Catalog, steps: Seq<SchemaStep>) -> Catalog
    decreases steps.len(),
{
    if steps.len() == 0 {
        c
    } else {
        apply_steps(apply_step(c, steps[0]), steps.drop_first())
    }
}

/// Whether the catalog already reflects a step.
pub open spec fn reflects(c: Catalog, step: SchemaStep) -> bool {
    match step {
        SchemaStep::EnableForeignKeys => c.foreign_keys,
        SchemaStep::CreateTableIfAbsent(t) => c.tables.contains_key(t),
    }
}

proof fn lemma_reflects_kept(c: Catalog, step: SchemaStep, steps: Seq<SchemaStep>)
    requires
        reflects(c, step),
    ensures
        reflects(apply_steps(c, steps), step),
        forall|t: Table| c.tables.contains_key(t) ==> apply_steps(c, steps).tables[t] == c.tables[t],
    decreases steps.len(),
{
    if steps.len() > 0 {
        let n = apply_step(c, steps[0]);
        assert(forall|t: Table| c.tables.contains_key(t) ==> n.tables.contains_key(t) && n.tables[t] == c.tables[t]);
        lemma_reflects_kept(n, step, steps.drop_first());
    }
}

proof fn lemma_apply_reflects_all(c: Catalog, steps: Seq<SchemaStep>)
    ensures
        forall|i: int| 0 <= i < steps.len() ==> reflects(apply_steps(c, steps), #[trigger] steps[i]),
    decreases steps.len(),
{
    if steps.len() > 0 {
        let n = apply_step(c, steps[0]);
        lemma_apply_reflects_all(n, steps.drop_first());
        lemma_reflects_kept(n, steps[0], steps.drop_first());
        assert forall|i: int| 0 <= i < steps.len() implies reflects(
            apply_steps(c, steps),
            #[trigger] steps[i],
        ) by {
            if i > 0 {
                assert(steps[i] == steps.drop_first()[i - 1]);
            }
        }
    }
}

proof fn lemma_reflected_steps_change_nothing(c: Catalog, steps: Seq<SchemaStep>)
    requires
        forall|i: int| 0 <= i < steps.len() ==> reflects(c, #[trigger] steps[i]),
    ensures
        apply_steps(c, steps) == c,
    decreases steps.len(),
{
    if steps.len() > 0 {
        assert(reflects(c, steps[0]));
        assert(apply_step(c, steps[0]) == c);
        assert forall|i: int| 0 <= i < steps.drop_first().len() implies reflects(
            c,
            #[trigger] steps.drop_first()[i],
        ) by {
            assert(steps.drop_first()[i] == steps[i + 1]);
        }
        lemma_reflected_steps_change_nothing(c, steps.drop_first());
    }
}

/// Running the schema plan twice leaves the same catalog, table set and column
/// definitions alike, as running it once.
pub proof fn lemma_plan_idempotent(c: Catalog)
    ensures
        apply_steps(apply_steps(c, plan()), plan()) == apply_steps(c, plan()),
{
    lemma_apply_reflects_all(c, plan());
    lemma_reflected_steps_change_nothing(apply_steps(c, plan()), plan());
}

/// After the schema plan, foreign keys are enforced and all four tables are
/// present; tables that were already there keep their definitions.
pub proof fn lemma_plan_establishes_schema(c: Catalog)
    ensures
        apply_steps(c, plan()).foreign_keys,
        forall|t: Table| #[trigger] apply_steps(c, plan()).tables.contains_key(t),
        forall|t: Table| c.tables.contains_key(t) ==> #[trigger] apply_steps(c, plan()).tables[t]
            == c.tables[t],
{
    lemma_apply_reflects_all(c, plan());
    assert(reflects(apply_steps(c, plan()), plan()[0]));
    assert forall|t: Table| #[trigger] apply_steps(c, plan()).tables.contains_key(t) by {
        let i: int = match t {
            Table::Folders => 1,
            Table::Documents => 2,
            Table::TimerSessions => 3,
            Table::ChangeLog => 4,
        };
        assert(reflects(apply_steps(c, plan()), plan()[i]));
    }
    assert forall|t: Table| c.tables.contains_key(t) implies #[trigger] apply_steps(
        c,
        plan(),
    ).tables[t] == c.tables[t] by {
        lemma_reflects_kept(c, SchemaStep::CreateTableIfAbsent(t), plan());
    }
}

/// The schema plan, in the order it must run.
pub fn schema_plan() -> (r: Vec<SchemaStep>)
    ensures
        r@ == plan(),
{
    let r = vec![
        SchemaStep::EnableForeignKeys,
        SchemaStep::CreateTableIfAbsent(Table::Folders),
        SchemaStep::CreateTableIfAbsent(Table::Documents),
        SchemaStep::CreateTableIfAbsent(Table::TimerSessions),
        SchemaStep::CreateTableIfAbsent(Table::ChangeLog),
    ];
    assert(r@ =~= plan());
    r
}

impl SchemaStep {
    /// The SQL text of this step.
    pub fn sql(&self) -> (r: String)
        ensures
            r@ == sql_of(*self),
    {
        match *self {
            SchemaStep::EnableForeignKeys => String::from_str(ENABLE_FOREIGN_KEYS),
            SchemaStep::CreateTableIfAbsent(t) => {
                let (prefix, columns) = match t {
                    Table::Folders => (CREATE_FOLDERS, FOLDERS_COLUMNS),
                    Table::Documents => (CREATE_DOCUMENTS, DOCUMENTS_COLUMNS),
                    Table::TimerSessions => (CREATE_TIMER_SESSIONS, TIMER_SESSIONS_COLUMNS),
                    Table::ChangeLog => (CREATE_CHANGE_LOG, CHANGE_LOG_COLUMNS),
                };
                let s = String::from_str(prefix);
                let s = s.concat(" ");
                s.concat(columns)
            },
        }
    }
}

} // verus!
