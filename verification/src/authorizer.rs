//! The SQLite authorizer callback: the context it reports for each action
//! code and the decision it answers with.
//!
//! See `sqlite3_set_authorizer` and its action code constants. A string
//! argument is `None` when SQLite passes `NULL` or a value that is not valid
//! UTF-8.

use crate::codes;
use vstd::prelude::*;

verus! {

/// Authorizing CREATE INDEX.
#[derive(Debug, Clone, Copy, PartialEq, Eq)]
#[non_exhaustive]
pub struct CreateIndex<'a> {
    /// Name of the index being created.
    pub index: Option<&'a str>,
    /// Name of the table the index is created on.
    pub table: Option<&'a str>,
    /// Database the object lives in (`"main"`, `"temp"`, or an `ATTACH` alias).
    pub database: Option<&'a str>,
    /// Inner-most trigger or view responsible for the access, if any.
    pub accessor: Option<&'a str>,
}

/// Authorizing CREATE TABLE.
#[derive(Debug, Clone, Copy, PartialEq, Eq)]
#[non_exhaustive]
pub struct CreateTable<'a> {
    /// Name of the table being created.
    pub table: Option<&'a str>,
    /// Database the object lives in (`"main"`, `"temp"`, or an `ATTACH` alias).
    pub database: Option<&'a str>,
    /// Inner-most trigger or view responsible for the access, if any.
    pub accessor: Option<&'a str>,
}

/// Authorizing CREATE TEMP INDEX.
#[derive(Debug, Clone, Copy, PartialEq, Eq)]
#[non_exhaustive]
pub struct CreateTempIndex<'a> {
    /// Name of the index being created.
    pub index: Option<&'a str>,
    /// Name of the table the index is created on.
    pub table: Option<&'a str>,
    /// Database the object lives in (`"main"`, `"temp"`, or an `ATTACH` alias).
    pub database: Option<&'a str>,
    /// Inner-most trigger or view responsible for the access, if any.
    pub accessor: Option<&'a str>,
}

/// Authorizing CREATE TEMP TABLE.
#[derive(Debug, Clone, Copy, PartialEq, Eq)]
#[non_exhaustive]
pub struct CreateTempTable<'a> {
    /// Name of the table being created.
    pub table: Option<&'a str>,
    /// Database the object lives in (`"main"`, `"temp"`, or an `ATTACH` alias).
    pub database: Option<&'a str>,
    /// Inner-most trigger or view responsible for the access, if any.
    pub accessor: Option<&'a str>,
}

/// Authorizing CREATE TEMP TRIGGER.
#[derive(Debug, Clone, Copy, PartialEq, Eq)]
#[non_exhaustive]
pub struct CreateTempTrigger<'a> {
    /// Name of the trigger being created.
    pub trigger: Option<&'a str>,
    /// Name of the table the trigger is attached to.
    pub table: Option<&'a str>,
    /// Database the object lives in (`"main"`, `"temp"`, or an `ATTACH` alias).
    pub database: Option<&'a str>,
    /// Inner-most trigger or view responsible for the access, if any.
    pub accessor: Option<&'a str>,
}

/// Authorizing CREATE TEMP VIEW.
#[derive(Debug, Clone, Copy, PartialEq, Eq)]
#[non_exhaustive]
pub struct CreateTempView<'a> {
    /// Name of the view being created.
    pub view: Option<&'a str>,
    /// Database the object lives in (`"main"`, `"temp"`, or an `ATTACH` alias).
    pub database: Option<&'a str>,
    /// Inner-most trigger or view responsible for the access, if any.
    pub accessor: Option<&'a str>,
}

/// Authorizing CREATE TRIGGER.
#[derive(Debug, Clone, Copy, PartialEq, Eq)]
#[non_exhaustive]
pub struct CreateTrigger<'a> {
    /// Name of the trigger being created.
    pub trigger: Option<&'a str>,
    /// Name of the table the trigger is attached to.
    pub table: Option<&'a str>,
    /// Database the object lives in (`"main"`, `"temp"`, or an `ATTACH` alias).
    pub database: Option<&'a str>,
    /// Inner-most trigger or view responsible for the access, if any.
    pub accessor: Option<&'a str>,
}

/// Authorizing CREATE VIEW.
#[derive(Debug, Clone, Copy, PartialEq, Eq)]
#[non_exhaustive]
pub struct CreateView<'a> {
    /// Name of the view being created.
    pub view: Option<&'a str>,
    /// Database the object lives in (`"main"`, `"temp"`, or an `ATTACH` alias).
    pub database: Option<&'a str>,
    /// Inner-most trigger or view responsible for the access, if any.
    pub accessor: Option<&'a str>,
}

/// Authorizing DELETE.
#[derive(Debug, Clone, Copy, PartialEq, Eq)]
#[non_exhaustive]
pub struct Delete<'a> {
    /// Name of the table rows are deleted from.
    pub table: Option<&'a str>,
    /// Database the object lives in (`"main"`, `"temp"`, or an `ATTACH` alias).
    pub database: Option<&'a str>,
    /// Inner-most trigger or view responsible for the access, if any.
    pub accessor: Option<&'a str>,
}

/// Authorizing DROP INDEX.
#[derive(Debug, Clone, Copy, PartialEq, Eq)]
#[non_exhaustive]
pub struct DropIndex<'a> {
    /// Name of the index being dropped.
    pub index: Option<&'a str>,
    /// Name of the table the index belongs to.
    pub table: Option<&'a str>,
    /// Database the object lives in (`"main"`, `"temp"`, or an `ATTACH` alias).
    pub database: Option<&'a str>,
    /// Inner-most trigger or view responsible for the access, if any.
    pub accessor: Option<&'a str>,
}

/// Authorizing DROP TABLE.
#[derive(Debug, Clone, Copy, PartialEq, Eq)]
#[non_exhaustive]
pub struct DropTable<'a> {
    /// Name of the table being dropped.
    pub table: Option<&'a str>,
    /// Database the object lives in (`"main"`, `"temp"`, or an `ATTACH` alias).
    pub database: Option<&'a str>,
    /// Inner-most trigger or view responsible for the access, if any.
    pub accessor: Option<&'a str>,
}

/// Authorizing DROP TEMP INDEX.
#[derive(Debug, Clone, Copy, PartialEq, Eq)]
#[non_exhaustive]
pub struct DropTempIndex<'a> {
    /// Name of the index being dropped.
    pub index: Option<&'a str>,
    /// Name of the table the index belongs to.
    pub table: Option<&'a str>,
    /// Database the object lives in (`"main"`, `"temp"`, or an `ATTACH` alias).
    pub database: Option<&'a str>,
    /// Inner-most trigger or view responsible for the access, if any.
    pub accessor: Option<&'a str>,
}

/// Authorizing DROP TEMP TABLE.
#[derive(Debug, Clone, Copy, PartialEq, Eq)]
#[non_exhaustive]
pub struct DropTempTable<'a> {
    /// Name of the table being dropped.
    pub table: Option<&'a str>,
    /// Database the object lives in (`"main"`, `"temp"`, or an `ATTACH` alias).
    pub database: Option<&'a str>,
    /// Inner-most trigger or view responsible for the access, if any.
    pub accessor: Option<&'a str>,
}

/// Authorizing DROP TEMP TRIGGER.
#[derive(Debug, Clone, Copy, PartialEq, Eq)]
#[non_exhaustive]
pub struct DropTempTrigger<'a> {
    /// Name of the trigger being dropped.
    pub trigger: Option<&'a str>,
    /// Name of the table the trigger is attached to.
    pub table: Option<&'a str>,
    /// Database the object lives in (`"main"`, `"temp"`, or an `ATTACH` alias).
    pub database: Option<&'a str>,
    /// Inner-most trigger or view responsible for the access, if any.
    pub accessor: Option<&'a str>,
}

/// Authorizing DROP TEMP VIEW.
#[derive(Debug, Clone, Copy, PartialEq, Eq)]
#[non_exhaustive]
pub struct DropTempView<'a> {
    /// Name of the view being dropped.
    pub view: Option<&'a str>,
    /// Database the object lives in (`"main"`, `"temp"`, or an `ATTACH` alias).
    pub database: Option<&'a str>,
    /// Inner-most trigger or view responsible for the access, if any.
    pub accessor: Option<&'a str>,
}

/// Authorizing DROP TRIGGER.
#[derive(Debug, Clone, Copy, PartialEq, Eq)]
#[non_exhaustive]
pub struct DropTrigger<'a> {
    /// Name of the trigger being dropped.
    pub trigger: Option<&'a str>,
    /// Name of the table the trigger is attached to.
    pub table: Option<&'a str>,
    /// Database the object lives in (`"main"`, `"temp"`, or an `ATTACH` alias).
    pub database: Option<&'a str>,
    /// Inner-most trigger or view responsible for the access, if any.
    pub accessor: Option<&'a str>,
}

/// Authorizing DROP VIEW.
#[derive(Debug, Clone, Copy, PartialEq, Eq)]
#[non_exhaustive]
pub struct DropView<'a> {
    /// Name of the view being dropped.
    pub view: Option<&'a str>,
    /// Database the object lives in (`"main"`, `"temp"`, or an `ATTACH` alias).
    pub database: Option<&'a str>,
    /// Inner-most trigger or view responsible for the access, if any.
    pub accessor: Option<&'a str>,
}

/// Authorizing INSERT.
#[derive(Debug, Clone, Copy, PartialEq, Eq)]
#[non_exhaustive]
pub struct Insert<'a> {
    /// Name of the table rows are inserted into.
    pub table: Option<&'a str>,
    /// Database the object lives in (`"main"`, `"temp"`, or an `ATTACH` alias).
    pub database: Option<&'a str>,
    /// Inner-most trigger or view responsible for the access, if any.
    pub accessor: Option<&'a str>,
}

/// Authorizing PRAGMA.
#[derive(Debug, Clone, Copy, PartialEq, Eq)]
#[non_exhaustive]
pub struct Pragma<'a> {
    /// Name of the pragma.
    pub name: Option<&'a str>,
    /// Argument of the pragma, if any.
    pub argument: Option<&'a str>,
    /// Database the object lives in (`"main"`, `"temp"`, or an `ATTACH` alias).
    pub database: Option<&'a str>,
    /// Inner-most trigger or view responsible for the access, if any.
    pub accessor: Option<&'a str>,
}

/// Authorizing reading a column value.
#[derive(Debug, Clone, Copy, PartialEq, Eq)]
#[non_exhaustive]
pub struct Read<'a> {
    /// Name of the table being read.
    pub table: Option<&'a str>,
    /// Name of the column being read.
    pub column: Option<&'a str>,
    /// Database the object lives in (`"main"`, `"temp"`, or an `ATTACH` alias).
    pub database: Option<&'a str>,
    /// Inner-most trigger or view responsible for the access, if any.
    pub accessor: Option<&'a str>,
}

/// Authorizing SELECT.
#[derive(Debug, Clone, Copy, PartialEq, Eq)]
#[non_exhaustive]
pub struct Select<'a> {
    /// Inner-most trigger or view responsible for the access, if any.
    pub accessor: Option<&'a str>,
}

/// Authorizing transaction control.
#[derive(Debug, Clone, Copy, PartialEq, Eq)]
#[non_exhaustive]
pub struct Transaction<'a> {
    /// The operation: `BEGIN`, `COMMIT` or `ROLLBACK`.
    pub operation: Option<&'a str>,
    /// Inner-most trigger or view responsible for the access, if any.
    pub accessor: Option<&'a str>,
}

/// Authorizing UPDATE.
#[derive(Debug, Clone, Copy, PartialEq, Eq)]
#[non_exhaustive]
pub struct Update<'a> {
    /// Name of the table being updated.
    pub table: Option<&'a str>,
    /// Name of the column being updated.
    pub column: Option<&'a str>,
    /// Database the object lives in (`"main"`, `"temp"`, or an `ATTACH` alias).
    pub database: Option<&'a str>,
    /// Inner-most trigger or view responsible for the access, if any.
    pub accessor: Option<&'a str>,
}

/// Authorizing ATTACH DATABASE.
#[derive(Debug, Clone, Copy, PartialEq, Eq)]
#[non_exhaustive]
pub struct Attach<'a> {
    /// File name of the database being attached.
    pub filename: Option<&'a str>,
    /// Inner-most trigger or view responsible for the access, if any.
    pub accessor: Option<&'a str>,
}

/// Authorizing DETACH DATABASE.
#[derive(Debug, Clone, Copy, PartialEq, Eq)]
#[non_exhaustive]
pub struct Detach<'a> {
    /// Name of the database being detached.
    pub database: Option<&'a str>,
    /// Inner-most trigger or view responsible for the access, if any.
    pub accessor: Option<&'a str>,
}

/// Authorizing ALTER TABLE.
#[derive(Debug, Clone, Copy, PartialEq, Eq)]
#[non_exhaustive]
pub struct AlterTable<'a> {
    /// Name of the database the table lives in.
    pub database: Option<&'a str>,
    /// Name of the table being altered.
    pub table: Option<&'a str>,
    /// Inner-most trigger or view responsible for the access, if any.
    pub accessor: Option<&'a str>,
}

/// Authorizing REINDEX.
#[derive(Debug, Clone, Copy, PartialEq, Eq)]
#[non_exhaustive]
pub struct Reindex<'a> {
    /// Name of the index being rebuilt.
    pub index: Option<&'a str>,
    /// Database the object lives in (`"main"`, `"temp"`, or an `ATTACH` alias).
    pub database: Option<&'a str>,
    /// Inner-most trigger or view responsible for the access, if any.
    pub accessor: Option<&'a str>,
}

/// Authorizing ANALYZE.
#[derive(Debug, Clone, Copy, PartialEq, Eq)]
#[non_exhaustive]
pub struct Analyze<'a> {
    /// Name of the table being analyzed.
    pub table: Option<&'a str>,
    /// Database the object lives in (`"main"`, `"temp"`, or an `ATTACH` alias).
    pub database: Option<&'a str>,
    /// Inner-most trigger or view responsible for the access, if any.
    pub accessor: Option<&'a str>,
}

/// Authorizing CREATE VIRTUAL TABLE.
#[derive(Debug, Clone, Copy, PartialEq, Eq)]
#[non_exhaustive]
pub struct CreateVTable<'a> {
    /// Name of the virtual table being created.
    pub table: Option<&'a str>,
    /// Name of the module implementing it.
    pub module: Option<&'a str>,
    /// Database the object lives in (`"main"`, `"temp"`, or an `ATTACH` alias).
    pub database: Option<&'a str>,
    /// Inner-most trigger or view responsible for the access, if any.
    pub accessor: Option<&'a str>,
}

/// Authorizing DROP VIRTUAL TABLE.
#[derive(Debug, Clone, Copy, PartialEq, Eq)]
#[non_exhaustive]
pub struct DropVTable<'a> {
    /// Name of the virtual table being dropped.
    pub table: Option<&'a str>,
    /// Name of the module implementing it.
    pub module: Option<&'a str>,
    /// Database the object lives in (`"main"`, `"temp"`, or an `ATTACH` alias).
    pub database: Option<&'a str>,
    /// Inner-most trigger or view responsible for the access, if any.
    pub accessor: Option<&'a str>,
}

/// Authorizing a SQL function call.
#[derive(Debug, Clone, Copy, PartialEq, Eq)]
#[non_exhaustive]
pub struct Function<'a> {
    /// Name of the function being called.
    pub function: Option<&'a str>,
    /// Inner-most trigger or view responsible for the access, if any.
    pub accessor: Option<&'a str>,
}

/// Authorizing SAVEPOINT.
#[derive(Debug, Clone, Copy, PartialEq, Eq)]
#[non_exhaustive]
pub struct Savepoint<'a> {
    /// The operation: `BEGIN`, `RELEASE` or `ROLLBACK`.
    pub operation: Option<&'a str>,
    /// Name of the savepoint.
    pub name: Option<&'a str>,
    /// Inner-most trigger or view responsible for the access, if any.
    pub accessor: Option<&'a str>,
}

/// Authorizing a recursive SELECT.
#[derive(Debug, Clone, Copy, PartialEq, Eq)]
#[non_exhaustive]
pub struct Recursive<'a> {
    /// Inner-most trigger or view responsible for the access, if any.
    pub accessor: Option<&'a str>,
}

/// An action code SQLite reported that this library does not model; the raw
/// arguments are kept unchanged.
#[derive(Debug, Clone, Copy, PartialEq, Eq)]
#[non_exhaustive]
pub struct Unknown<'a> {
    /// The raw SQLite action code.
    pub code: i32,
    /// The third argument to the authorizer callback, if any.
    pub arg1: Option<&'a str>,
    /// The fourth argument to the authorizer callback, if any.
    pub arg2: Option<&'a str>,
    /// Database the object lives in (`"main"`, `"temp"`, or an `ATTACH` alias).
    pub database: Option<&'a str>,
    /// Inner-most trigger or view responsible for the access, if any.
    pub accessor: Option<&'a str>,
}

/// Context information passed to the authorizer callback: one variant per
/// SQLite action code, each carrying the arguments of that action under
/// descriptive names.
#[derive(Debug, Clone, Copy, PartialEq, Eq)]
#[non_exhaustive]
pub enum AuthorizerContext<'a> {
    /// CREATE INDEX
    CreateIndex(CreateIndex<'a>),
    /// CREATE TABLE
    CreateTable(CreateTable<'a>),
    /// CREATE TEMP INDEX
    CreateTempIndex(CreateTempIndex<'a>),
    /// CREATE TEMP TABLE
    CreateTempTable(CreateTempTable<'a>),
    /// CREATE TEMP TRIGGER
    CreateTempTrigger(CreateTempTrigger<'a>),
    /// CREATE TEMP VIEW
    CreateTempView(CreateTempView<'a>),
    /// CREATE TRIGGER
    CreateTrigger(CreateTrigger<'a>),
    /// CREATE VIEW
    CreateView(CreateView<'a>),
    /// DELETE
    Delete(Delete<'a>),
    /// DROP INDEX
    DropIndex(DropIndex<'a>),
    /// DROP TABLE
    DropTable(DropTable<'a>),
    /// DROP TEMP INDEX
    DropTempIndex(DropTempIndex<'a>),
    /// DROP TEMP TABLE
    DropTempTable(DropTempTable<'a>),
    /// DROP TEMP TRIGGER
    DropTempTrigger(DropTempTrigger<'a>),
    /// DROP TEMP VIEW
    DropTempView(DropTempView<'a>),
    /// DROP TRIGGER
    DropTrigger(DropTrigger<'a>),
    /// DROP VIEW
    DropView(DropView<'a>),
    /// INSERT
    Insert(Insert<'a>),
    /// PRAGMA
    Pragma(Pragma<'a>),
    /// reading a column value
    Read(Read<'a>),
    /// SELECT
    Select(Select<'a>),
    /// transaction control
    Transaction(Transaction<'a>),
    /// UPDATE
    Update(Update<'a>),
    /// ATTACH DATABASE
    Attach(Attach<'a>),
    /// DETACH DATABASE
    Detach(Detach<'a>),
    /// ALTER TABLE
    AlterTable(AlterTable<'a>),
    /// REINDEX
    Reindex(Reindex<'a>),
    /// ANALYZE
    Analyze(Analyze<'a>),
    /// CREATE VIRTUAL TABLE
    CreateVTable(CreateVTable<'a>),
    /// DROP VIRTUAL TABLE
    DropVTable(DropVTable<'a>),
    /// a SQL function call
    Function(Function<'a>),
    /// SAVEPOINT
    Savepoint(Savepoint<'a>),
    /// a recursive SELECT
    Recursive(Recursive<'a>),
    /// An action code that this library does not model.
    Unknown(Unknown<'a>),
}

/// Whether SQLite's action code is one that `AuthorizerContext` models by
/// a named variant.
pub open spec fn is_modelled_action_code(code: i32) -> bool {
    1 <= code <= 33
}

/// Whether the action with this code changes the database schema.
pub open spec fn is_schema_modifying_code(code: i32) -> bool {
    ||| 1 <= code <= 8
    ||| 10 <= code <= 17
    ||| code == 26
    ||| code == 29
    ||| code == 30
}

impl<'a> AuthorizerContext<'a> {
    /// The SQLite action code this context stands for.
    pub open spec fn action_code(self) -> i32 {
        match self {
            AuthorizerContext::CreateIndex(_) => 1i32,
            AuthorizerContext::CreateTable(_) => 2i32,
            AuthorizerContext::CreateTempIndex(_) => 3i32,
            AuthorizerContext::CreateTempTable(_) => 4i32,
            AuthorizerContext::CreateTempTrigger(_) => 5i32,
            AuthorizerContext::CreateTempView(_) => 6i32,
            AuthorizerContext::CreateTrigger(_) => 7i32,
            AuthorizerContext::CreateView(_) => 8i32,
            AuthorizerContext::Delete(_) => 9i32,
            AuthorizerContext::DropIndex(_) => 10i32,
            AuthorizerContext::DropTable(_) => 11i32,
            AuthorizerContext::DropTempIndex(_) => 12i32,
            AuthorizerContext::DropTempTable(_) => 13i32,
            AuthorizerContext::DropTempTrigger(_) => 14i32,
            AuthorizerContext::DropTempView(_) => 15i32,
            AuthorizerContext::DropTrigger(_) => 16i32,
            AuthorizerContext::DropView(_) => 17i32,
            AuthorizerContext::Insert(_) => 18i32,
            AuthorizerContext::Pragma(_) => 19i32,
            AuthorizerContext::Read(_) => 20i32,
            AuthorizerContext::Select(_) => 21i32,
            AuthorizerContext::Transaction(_) => 22i32,
            AuthorizerContext::Update(_) => 23i32,
            AuthorizerContext::Attach(_) => 24i32,
            AuthorizerContext::Detach(_) => 25i32,
            AuthorizerContext::AlterTable(_) => 26i32,
            AuthorizerContext::Reindex(_) => 27i32,
            AuthorizerContext::Analyze(_) => 28i32,
            AuthorizerContext::CreateVTable(_) => 29i32,
            AuthorizerContext::DropVTable(_) => 30i32,
            AuthorizerContext::Function(_) => 31i32,
            AuthorizerContext::Savepoint(_) => 32i32,
            AuthorizerContext::Recursive(_) => 33i32,
            AuthorizerContext::Unknown(u) => u.code,
        }
    }

    /// A context is well formed when an `Unknown` one holds an action code
    /// that has no named variant.
    pub open spec fn well_formed(self) -> bool {
        match self {
            AuthorizerContext::Unknown(u) => !is_modelled_action_code(u.code),
            _ => true,
        }
    }

    /// The context holds the callback's third and fourth arguments, the
    /// database name and the accessor in the fields that its action gives them.
    pub open spec fn carries(
        self,
        arg1: Option<&'a str>,
        arg2: Option<&'a str>,
        database: Option<&'a str>,
        accessor: Option<&'a str>,
    ) -> bool {
        match self {
            AuthorizerContext::CreateIndex(x) => x.index == arg1 && x.table == arg2 && x.database == database && x.accessor == accessor,
            AuthorizerContext::CreateTable(x) => x.table == arg1 && x.database == database && x.accessor == accessor,
            AuthorizerContext::CreateTempIndex(x) => x.index == arg1 && x.table == arg2 && x.database == database && x.accessor == accessor,
            AuthorizerContext::CreateTempTable(x) => x.table == arg1 && x.database == database && x.accessor == accessor,
            AuthorizerContext::CreateTempTrigger(x) => x.trigger == arg1 && x.table == arg2 && x.database == database && x.accessor == accessor,
            AuthorizerContext::CreateTempView(x) => x.view == arg1 && x.database == database && x.accessor == accessor,
            AuthorizerContext::CreateTrigger(x) => x.trigger == arg1 && x.table == arg2 && x.database == database && x.accessor == accessor,
            AuthorizerContext::CreateView(x) => x.view == arg1 && x.database == database && x.accessor == accessor,
            AuthorizerContext::Delete(x) => x.table == arg1 && x.database == database && x.accessor == accessor,
            AuthorizerContext::DropIndex(x) => x.index == arg1 && x.table == arg2 && x.database == database && x.accessor == accessor,
            AuthorizerContext::DropTable(x) => x.table == arg1 && x.database == database && x.accessor == accessor,
            AuthorizerContext::DropTempIndex(x) => x.index == arg1 && x.table == arg2 && x.database == database && x.accessor == accessor,
            AuthorizerContext::DropTempTable(x) => x.table == arg1 && x.database == database && x.accessor == accessor,
            AuthorizerContext::DropTempTrigger(x) => x.trigger == arg1 && x.table == arg2 && x.database == database && x.accessor == accessor,
            AuthorizerContext::DropTempView(x) => x.view == arg1 && x.database == database && x.accessor == accessor,
            AuthorizerContext::DropTrigger(x) => x.trigger == arg1 && x.table == arg2 && x.database == database && x.accessor == accessor,
            AuthorizerContext::DropView(x) => x.view == arg1 && x.database == database && x.accessor == accessor,
            AuthorizerContext::Insert(x) => x.table == arg1 && x.database == database && x.accessor == accessor,
            AuthorizerContext::Pragma(x) => x.name == arg1 && x.argument == arg2 && x.database == database && x.accessor == accessor,
            AuthorizerContext::Read(x) => x.table == arg1 && x.column == arg2 && x.database == database && x.accessor == accessor,
            AuthorizerContext::Select(x) => x.accessor == accessor,
            AuthorizerContext::Transaction(x) => x.operation == arg1 && x.accessor == accessor,
            AuthorizerContext::Update(x) => x.table == arg1 && x.column == arg2 && x.database == database && x.accessor == accessor,
            AuthorizerContext::Attach(x) => x.filename == arg1 && x.accessor == accessor,
            AuthorizerContext::Detach(x) => x.database == arg1 && x.accessor == accessor,
            AuthorizerContext::AlterTable(x) => x.database == arg1 && x.table == arg2 && x.accessor == accessor,
            AuthorizerContext::Reindex(x) => x.index == arg1 && x.database == database && x.accessor == accessor,
            AuthorizerContext::Analyze(x) => x.table == arg1 && x.database == database && x.accessor == accessor,
            AuthorizerContext::CreateVTable(x) => x.table == arg1 && x.module == arg2 && x.database == database && x.accessor == accessor,
            AuthorizerContext::DropVTable(x) => x.table == arg1 && x.module == arg2 && x.database == database && x.accessor == accessor,
            AuthorizerContext::Function(x) => x.function == arg2 && x.accessor == accessor,
            AuthorizerContext::Savepoint(x) => x.operation == arg1 && x.name == arg2 && x.accessor == accessor,
            AuthorizerContext::Recursive(x) => x.accessor == accessor,
            AuthorizerContext::Unknown(x) => x.arg1 == arg1 && x.arg2 == arg2 && x.database == database
                && x.accessor == accessor,
        }
    }

    /// The context is what the callback arguments `code`, `arg1`, `arg2`,
    /// `database` and `accessor` describe.
    pub open spec fn decodes(
        self,
        code: i32,
        arg1: Option<&'a str>,
        arg2: Option<&'a str>,
        database: Option<&'a str>,
        accessor: Option<&'a str>,
    ) -> bool {
        &&& self.action_code() == code
        &&& (self is Unknown <==> !is_modelled_action_code(code))
        &&& self.carries(arg1, arg2, database, accessor)
    }

    /// The callback's third argument as SQLite passes it for this context
    /// (`None` where the action has no such argument).
    pub open spec fn raw_arg1(self) -> Option<&'a str> {
        match self {
            AuthorizerContext::CreateIndex(x) => x.index,
            AuthorizerContext::CreateTable(x) => x.table,
            AuthorizerContext::CreateTempIndex(x) => x.index,
            AuthorizerContext::CreateTempTable(x) => x.table,
            AuthorizerContext::CreateTempTrigger(x) => x.trigger,
            AuthorizerContext::CreateTempView(x) => x.view,
            AuthorizerContext::CreateTrigger(x) => x.trigger,
            AuthorizerContext::CreateView(x) => x.view,
            AuthorizerContext::Delete(x) => x.table,
            AuthorizerContext::DropIndex(x) => x.index,
            AuthorizerContext::DropTable(x) => x.table,
            AuthorizerContext::DropTempIndex(x) => x.index,
            AuthorizerContext::DropTempTable(x) => x.table,
            AuthorizerContext::DropTempTrigger(x) => x.trigger,
            AuthorizerContext::DropTempView(x) => x.view,
            AuthorizerContext::DropTrigger(x) => x.trigger,
            AuthorizerContext::DropView(x) => x.view,
            AuthorizerContext::Insert(x) => x.table,
            AuthorizerContext::Pragma(x) => x.name,
            AuthorizerContext::Read(x) => x.table,
            AuthorizerContext::Select(x) => None,
            AuthorizerContext::Transaction(x) => x.operation,
            AuthorizerContext::Update(x) => x.table,
            AuthorizerContext::Attach(x) => x.filename,
            AuthorizerContext::Detach(x) => x.database,
            AuthorizerContext::AlterTable(x) => x.database,
            AuthorizerContext::Reindex(x) => x.index,
            AuthorizerContext::Analyze(x) => x.table,
            AuthorizerContext::CreateVTable(x) => x.table,
            AuthorizerContext::DropVTable(x) => x.table,
            AuthorizerContext::Function(x) => None,
            AuthorizerContext::Savepoint(x) => x.operation,
            AuthorizerContext::Recursive(x) => None,
            AuthorizerContext::Unknown(x) => x.arg1,
        }
    }

    /// The callback's fourth argument as SQLite passes it for this context.
    pub open spec fn raw_arg2(self) -> Option<&'a str> {
        match self {
            AuthorizerContext::CreateIndex(x) => x.table,
            AuthorizerContext::CreateTable(x) => None,
            AuthorizerContext::CreateTempIndex(x) => x.table,
            AuthorizerContext::CreateTempTable(x) => None,
            AuthorizerContext::CreateTempTrigger(x) => x.table,
            AuthorizerContext::CreateTempView(x) => None,
            AuthorizerContext::CreateTrigger(x) => x.table,
            AuthorizerContext::CreateView(x) => None,
            AuthorizerContext::Delete(x) => None,
            AuthorizerContext::DropIndex(x) => x.table,
            AuthorizerContext::DropTable(x) => None,
            AuthorizerContext::DropTempIndex(x) => x.table,
            AuthorizerContext::DropTempTable(x) => None,
            AuthorizerContext::DropTempTrigger(x) => x.table,
            AuthorizerContext::DropTempView(x) => None,
            AuthorizerContext::DropTrigger(x) => x.table,
            AuthorizerContext::DropView(x) => None,
            AuthorizerContext::Insert(x) => None,
            AuthorizerContext::Pragma(x) => x.argument,
            AuthorizerContext::Read(x) => x.column,
            AuthorizerContext::Select(x) => None,
            AuthorizerContext::Transaction(x) => None,
            AuthorizerContext::Update(x) => x.column,
            AuthorizerContext::Attach(x) => None,
            AuthorizerContext::Detach(x) => None,
            AuthorizerContext::AlterTable(x) => x.table,
            AuthorizerContext::Reindex(x) => None,
            AuthorizerContext::Analyze(x) => None,
            AuthorizerContext::CreateVTable(x) => x.module,
            AuthorizerContext::DropVTable(x) => x.module,
            AuthorizerContext::Function(x) => x.function,
            AuthorizerContext::Savepoint(x) => x.name,
            AuthorizerContext::Recursive(x) => None,
            AuthorizerContext::Unknown(x) => x.arg2,
        }
    }

    /// The callback's database name as SQLite passes it for this context.
    pub open spec fn raw_database(self) -> Option<&'a str> {
        match self {
            AuthorizerContext::CreateIndex(x) => x.database,
            AuthorizerContext::CreateTable(x) => x.database,
            AuthorizerContext::CreateTempIndex(x) => x.database,
            AuthorizerContext::CreateTempTable(x) => x.database,
            AuthorizerContext::CreateTempTrigger(x) => x.database,
            AuthorizerContext::CreateTempView(x) => x.database,
            AuthorizerContext::CreateTrigger(x) => x.database,
            AuthorizerContext::CreateView(x) => x.database,
            AuthorizerContext::Delete(x) => x.database,
            AuthorizerContext::DropIndex(x) => x.database,
            AuthorizerContext::DropTable(x) => x.database,
            AuthorizerContext::DropTempIndex(x) => x.database,
            AuthorizerContext::DropTempTable(x) => x.database,
            AuthorizerContext::DropTempTrigger(x) => x.database,
            AuthorizerContext::DropTempView(x) => x.database,
            AuthorizerContext::DropTrigger(x) => x.database,
            AuthorizerContext::DropView(x) => x.database,
            AuthorizerContext::Insert(x) => x.database,
            AuthorizerContext::Pragma(x) => x.database,
            AuthorizerContext::Read(x) => x.database,
            AuthorizerContext::Select(x) => None,
            AuthorizerContext::Transaction(x) => None,
            AuthorizerContext::Update(x) => x.database,
            AuthorizerContext::Attach(x) => None,
            AuthorizerContext::Detach(x) => None,
            AuthorizerContext::AlterTable(x) => None,
            AuthorizerContext::Reindex(x) => x.database,
            AuthorizerContext::Analyze(x) => x.database,
            AuthorizerContext::CreateVTable(x) => x.database,
            AuthorizerContext::DropVTable(x) => x.database,
            AuthorizerContext::Function(x) => None,
            AuthorizerContext::Savepoint(x) => None,
            AuthorizerContext::Recursive(x) => None,
            AuthorizerContext::Unknown(x) => x.database,
        }
    }

    /// The callback's accessor argument as SQLite passes it for this context.
    pub open spec fn raw_accessor(self) -> Option<&'a str> {
        match self {
            AuthorizerContext::CreateIndex(x) => x.accessor,
            AuthorizerContext::CreateTable(x) => x.accessor,
            AuthorizerContext::CreateTempIndex(x) => x.accessor,
            AuthorizerContext::CreateTempTable(x) => x.accessor,
            AuthorizerContext::CreateTempTrigger(x) => x.accessor,
            AuthorizerContext::CreateTempView(x) => x.accessor,
            AuthorizerContext::CreateTrigger(x) => x.accessor,
            AuthorizerContext::CreateView(x) => x.accessor,
            AuthorizerContext::Delete(x) => x.accessor,
            AuthorizerContext::DropIndex(x) => x.accessor,
            AuthorizerContext::DropTable(x) => x.accessor,
            AuthorizerContext::DropTempIndex(x) => x.accessor,
            AuthorizerContext::DropTempTable(x) => x.accessor,
            AuthorizerContext::DropTempTrigger(x) => x.accessor,
            AuthorizerContext::DropTempView(x) => x.accessor,
            AuthorizerContext::DropTrigger(x) => x.accessor,
            AuthorizerContext::DropView(x) => x.accessor,
            AuthorizerContext::Insert(x) => x.accessor,
            AuthorizerContext::Pragma(x) => x.accessor,
            AuthorizerContext::Read(x) => x.accessor,
            AuthorizerContext::Select(x) => x.accessor,
            AuthorizerContext::Transaction(x) => x.accessor,
            AuthorizerContext::Update(x) => x.accessor,
            AuthorizerContext::Attach(x) => x.accessor,
            AuthorizerContext::Detach(x) => x.accessor,
            AuthorizerContext::AlterTable(x) => x.accessor,
            AuthorizerContext::Reindex(x) => x.accessor,
            AuthorizerContext::Analyze(x) => x.accessor,
            AuthorizerContext::CreateVTable(x) => x.accessor,
            AuthorizerContext::DropVTable(x) => x.accessor,
            AuthorizerContext::Function(x) => x.accessor,
            AuthorizerContext::Savepoint(x) => x.accessor,
            AuthorizerContext::Recursive(x) => x.accessor,
            AuthorizerContext::Unknown(x) => x.accessor,
        }
    }

    /// Returns `true` if this action modifies the database schema: creating,
    /// dropping or altering tables, indexes, triggers, views and virtual tables.
    pub fn is_schema_modifying(&self) -> (r: bool)
        ensures
            r == (self is CreateIndex || self is CreateTable || self is CreateTempIndex
                || self is CreateTempTable || self is CreateTempTrigger || self is CreateTempView
                || self is CreateTrigger || self is CreateView || self is CreateVTable
                || self is DropIndex || self is DropTable || self is DropTempIndex
                || self is DropTempTable || self is DropTempTrigger || self is DropTempView
                || self is DropTrigger || self is DropView || self is DropVTable
                || self is AlterTable),
    {
        match self {
            AuthorizerContext::CreateIndex(_) => true,
            AuthorizerContext::CreateTable(_) => true,
            AuthorizerContext::CreateTempIndex(_) => true,
            AuthorizerContext::CreateTempTable(_) => true,
            AuthorizerContext::CreateTempTrigger(_) => true,
            AuthorizerContext::CreateTempView(_) => true,
            AuthorizerContext::CreateTrigger(_) => true,
            AuthorizerContext::CreateView(_) => true,
            AuthorizerContext::Delete(_) => false,
            AuthorizerContext::DropIndex(_) => true,
            AuthorizerContext::DropTable(_) => true,
            AuthorizerContext::DropTempIndex(_) => true,
            AuthorizerContext::DropTempTable(_) => true,
            AuthorizerContext::DropTempTrigger(_) => true,
            AuthorizerContext::DropTempView(_) => true,
            AuthorizerContext::DropTrigger(_) => true,
            AuthorizerContext::DropView(_) => true,
            AuthorizerContext::Insert(_) => false,
            AuthorizerContext::Pragma(_) => false,
            AuthorizerContext::Read(_) => false,
            AuthorizerContext::Select(_) => false,
            AuthorizerContext::Transaction(_) => false,
            AuthorizerContext::Update(_) => false,
            AuthorizerContext::Attach(_) => false,
            AuthorizerContext::Detach(_) => false,
            AuthorizerContext::AlterTable(_) => true,
            AuthorizerContext::Reindex(_) => false,
            AuthorizerContext::Analyze(_) => false,
            AuthorizerContext::CreateVTable(_) => true,
            AuthorizerContext::DropVTable(_) => true,
            AuthorizerContext::Function(_) => false,
            AuthorizerContext::Savepoint(_) => false,
            AuthorizerContext::Recursive(_) => false,
            AuthorizerContext::Unknown(_) => false,
        }
    }

    /// Builds the context from the raw authorizer callback arguments: `code`
    /// is the action code, `arg1` and `arg2` the third and fourth arguments,
    /// `database` the database name and `accessor` the trigger or view
    /// responsible.
    pub fn from_ffi(
        code: i32,
        arg1: Option<&'a str>,
        arg2: Option<&'a str>,
        database: Option<&'a str>,
        accessor: Option<&'a str>,
    ) -> (r: Self)
        ensures
            r.decodes(code, arg1, arg2, database, accessor),
    {
        if code == codes::sqlite_create_index() {
            AuthorizerContext::CreateIndex(CreateIndex { index: arg1, table: arg2, database, accessor })
        } else if code == codes::sqlite_create_table() {
            AuthorizerContext::CreateTable(CreateTable { table: arg1, database, accessor })
        } else if code == codes::sqlite_create_temp_index() {
            AuthorizerContext::CreateTempIndex(CreateTempIndex { index: arg1, table: arg2, database, accessor })
        } else if code == codes::sqlite_create_temp_table() {
            AuthorizerContext::CreateTempTable(CreateTempTable { table: arg1, database, accessor })
        } else if code == codes::sqlite_create_temp_trigger() {
            AuthorizerContext::CreateTempTrigger(CreateTempTrigger { trigger: arg1, table: arg2, database, accessor })
        } else if code == codes::sqlite_create_temp_view() {
            AuthorizerContext::CreateTempView(CreateTempView { view: arg1, database, accessor })
        } else if code == codes::sqlite_create_trigger() {
            AuthorizerContext::CreateTrigger(CreateTrigger { trigger: arg1, table: arg2, database, accessor })
        } else if code == codes::sqlite_create_view() {
            AuthorizerContext::CreateView(CreateView { view: arg1, database, accessor })
        } else if code == codes::sqlite_delete() {
            AuthorizerContext::Delete(Delete { table: arg1, database, accessor })
        } else if code == codes::sqlite_drop_index() {
            AuthorizerContext::DropIndex(DropIndex { index: arg1, table: arg2, database, accessor })
        } else if code == codes::sqlite_drop_table() {
            AuthorizerContext::DropTable(DropTable { table: arg1, database, accessor })
        } else if code == codes::sqlite_drop_temp_index() {
            AuthorizerContext::DropTempIndex(DropTempIndex { index: arg1, table: arg2, database, accessor })
        } else if code == codes::sqlite_drop_temp_table() {
            AuthorizerContext::DropTempTable(DropTempTable { table: arg1, database, accessor })
        } else if code == codes::sqlite_drop_temp_trigger() {
            AuthorizerContext::DropTempTrigger(DropTempTrigger { trigger: arg1, table: arg2, database, accessor })
        } else if code == codes::sqlite_drop_temp_view() {
            AuthorizerContext::DropTempView(DropTempView { view: arg1, database, accessor })
        } else if code == codes::sqlite_drop_trigger() {
            AuthorizerContext::DropTrigger(DropTrigger { trigger: arg1, table: arg2, database, accessor })
        } else if code == codes::sqlite_drop_view() {
            AuthorizerContext::DropView(DropView { view: arg1, database, accessor })
        } else if code == codes::sqlite_insert() {
            AuthorizerContext::Insert(Insert { table: arg1, database, accessor })
        } else if code == codes::sqlite_pragma() {
            AuthorizerContext::Pragma(Pragma { name: arg1, argument: arg2, database, accessor })
        } else if code == codes::sqlite_read() {
            AuthorizerContext::Read(Read { table: arg1, column: arg2, database, accessor })
        } else if code == codes::sqlite_select() {
            AuthorizerContext::Select(Select { accessor })
        } else if code == codes::sqlite_transaction() {
            AuthorizerContext::Transaction(Transaction { operation: arg1, accessor })
        } else if code == codes::sqlite_update() {
            AuthorizerContext::Update(Update { table: arg1, column: arg2, database, accessor })
        } else if code == codes::sqlite_attach() {
            AuthorizerContext::Attach(Attach { filename: arg1, accessor })
        } else if code == codes::sqlite_detach() {
            AuthorizerContext::Detach(Detach { database: arg1, accessor })
        } else if code == codes::sqlite_alter_table() {
            AuthorizerContext::AlterTable(AlterTable { database: arg1, table: arg2, accessor })
        } else if code == codes::sqlite_reindex() {
            AuthorizerContext::Reindex(Reindex { index: arg1, database, accessor })
        } else if code == codes::sqlite_analyze() {
            AuthorizerContext::Analyze(Analyze { table: arg1, database, accessor })
        } else if code == codes::sqlite_create_vtable() {
            AuthorizerContext::CreateVTable(CreateVTable { table: arg1, module: arg2, database, accessor })
        } else if code == codes::sqlite_drop_vtable() {
            AuthorizerContext::DropVTable(DropVTable { table: arg1, module: arg2, database, accessor })
        } else if code == codes::sqlite_function() {
            AuthorizerContext::Function(Function { function: arg2, accessor })
        } else if code == codes::sqlite_savepoint() {
            AuthorizerContext::Savepoint(Savepoint { operation: arg1, name: arg2, accessor })
        } else if code == codes::sqlite_recursive() {
            AuthorizerContext::Recursive(Recursive { accessor })
        } else {
            AuthorizerContext::Unknown(Unknown { code, arg1, arg2, database, accessor })
        }
    }
}

/// SQLite's action codes, `SQLITE_CREATE_INDEX` (1) through
/// `SQLITE_RECURSIVE` (33), each decode to their own variant and to no
/// other: a context decoded from `code` is `Insert` exactly when `code` is
/// `SQLITE_INSERT` (18), `Delete` exactly when it is `SQLITE_DELETE` (9), and
/// so on; any other code decodes to `Unknown`, which keeps it.
pub proof fn lemma_action_codes_are_sqlites<'a>(
    c: AuthorizerContext<'a>,
    code: i32,
    arg1: Option<&'a str>,
    arg2: Option<&'a str>,
    database: Option<&'a str>,
    accessor: Option<&'a str>,
)
    requires
        c.decodes(code, arg1, arg2, database, accessor),
    ensures
        c is CreateIndex <==> code == 1,
        c is CreateTable <==> code == 2,
        c is CreateTempIndex <==> code == 3,
        c is CreateTempTable <==> code == 4,
        c is CreateTempTrigger <==> code == 5,
        c is CreateTempView <==> code == 6,
        c is CreateTrigger <==> code == 7,
        c is CreateView <==> code == 8,
        c is Delete <==> code == 9,
        c is DropIndex <==> code == 10,
        c is DropTable <==> code == 11,
        c is DropTempIndex <==> code == 12,
        c is DropTempTable <==> code == 13,
        c is DropTempTrigger <==> code == 14,
        c is DropTempView <==> code == 15,
        c is DropTrigger <==> code == 16,
        c is DropView <==> code == 17,
        c is Insert <==> code == 18,
        c is Pragma <==> code == 19,
        c is Read <==> code == 20,
        c is Select <==> code == 21,
        c is Transaction <==> code == 22,
        c is Update <==> code == 23,
        c is Attach <==> code == 24,
        c is Detach <==> code == 25,
        c is AlterTable <==> code == 26,
        c is Reindex <==> code == 27,
        c is Analyze <==> code == 28,
        c is CreateVTable <==> code == 29,
        c is DropVTable <==> code == 30,
        c is Function <==> code == 31,
        c is Savepoint <==> code == 32,
        c is Recursive <==> code == 33,
        c is Unknown <==> (code < 1 || code > 33),
        c matches AuthorizerContext::Unknown(u) ==> u.code == code && u.arg1 == arg1 && u.arg2 == arg2
            && u.database == database && u.accessor == accessor,
        c matches AuthorizerContext::Insert(x) ==> x.table == arg1 && x.database == database
            && x.accessor == accessor,
        c matches AuthorizerContext::Delete(x) ==> x.table == arg1 && x.database == database
            && x.accessor == accessor,
{
}

/// Decoding is deterministic: two contexts that both decode the same callback
/// arguments are equal.
pub proof fn lemma_decoding_is_deterministic<'a>(
    c1: AuthorizerContext<'a>,
    c2: AuthorizerContext<'a>,
    code: i32,
    arg1: Option<&'a str>,
    arg2: Option<&'a str>,
    database: Option<&'a str>,
    accessor: Option<&'a str>,
)
    requires
        c1.decodes(code, arg1, arg2, database, accessor),
        c2.decodes(code, arg1, arg2, database, accessor),
    ensures
        c1 == c2,
{
}

/// Decoding loses nothing: every well-formed context is what its own action
/// code and raw arguments decode to, so building the context from the
/// arguments SQLite would pass for it gives it back.
pub proof fn lemma_context_decodes_from_its_raw_arguments<'a>(c: AuthorizerContext<'a>)
    requires
        c.well_formed(),
    ensures
        c.decodes(c.action_code(), c.raw_arg1(), c.raw_arg2(), c.raw_database(), c.raw_accessor()),
{
}

/// Whether an action modifies the schema depends on its action code alone.
pub proof fn lemma_schema_modification_follows_the_action_code<'a>(c: AuthorizerContext<'a>)
    requires
        c.well_formed(),
    ensures
        (c is CreateIndex || c is CreateTable || c is CreateTempIndex || c is CreateTempTable
            || c is CreateTempTrigger || c is CreateTempView || c is CreateTrigger || c is CreateView
            || c is CreateVTable || c is DropIndex || c is DropTable || c is DropTempIndex
            || c is DropTempTable || c is DropTempTrigger || c is DropTempView || c is DropTrigger
            || c is DropView || c is DropVTable || c is AlterTable)
            == is_schema_modifying_code(c.action_code()),
{
}

/// The authorizer callback's answer.
#[derive(Debug, Clone, Copy, PartialEq, Eq)]
pub enum AuthorizerDecision {
    /// Allow the operation to proceed (`SQLITE_OK`).
    Allow,
    /// Ignore the operation (`SQLITE_IGNORE`): a `Read` yields `NULL`, other
    /// actions become no-ops.
    Ignore,
    /// Deny the operation (`SQLITE_DENY`): the whole statement fails with an
    /// authorization error.
    Deny,
}

impl AuthorizerDecision {
    /// The integer SQLite expects from the callback for this decision.
    pub open spec fn spec_code(self) -> i32 {
        match self {
            AuthorizerDecision::Allow => 0,
            AuthorizerDecision::Ignore => 2,
            AuthorizerDecision::Deny => 1,
        }
    }

    /// Converts the decision to the callback's return code.
    pub fn to_ffi(self) -> (r: i32)
        ensures
            r == self.spec_code(),
    {
        match self {
            AuthorizerDecision::Allow => codes::sqlite_ok(),
            AuthorizerDecision::Ignore => codes::sqlite_ignore(),
            AuthorizerDecision::Deny => codes::sqlite_deny(),
        }
    }
}

/// Distinct decisions give distinct return codes.
pub proof fn lemma_decision_codes_are_distinct(d1: AuthorizerDecision, d2: AuthorizerDecision)
    requires
        d1.spec_code() == d2.spec_code(),
    ensures
        d1 == d2,
{
}

} // verus!
