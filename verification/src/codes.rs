//! The result codes, action codes and option codes of the SQLite C API, read
//! from `libsqlite3-sys`, and the English text SQLite gives each result code.

use libsqlite3_sys as ffi;
use vstd::prelude::*;

verus! {

/// The English text that `libsqlite3_sys::code_to_str` gives a result code.
pub uninterp spec fn result_code_text(code: i32) -> Seq<char>;

/// `libsqlite3_sys::code_to_str`: a pure table from a result code to a static
/// English description; what it returns depends on the code alone.
#[verifier::external_body]
pub(crate) fn code_to_str(code: i32) -> (r: &'static str)
    ensures
        r@ == result_code_text(code),
{
    ffi::code_to_str(code)
}

/// The text of the error message for a result code, as the connection reports it.
pub fn error_message(code: i32) -> (r: &'static str)
    ensures
        r@ == result_code_text(code),
{
    code_to_str(code)
}

/// `libsqlite3_sys::SQLITE_OK`, the success result code: the binding defines it as `0`.
#[verifier::external_body]
pub(crate) fn sqlite_ok() -> (r: i32)
    ensures
        r == 0i32,
{
    ffi::SQLITE_OK
}

/// `libsqlite3_sys::SQLITE_ROW`, the result code of a step that produced a row: the binding defines it as `100`.
#[verifier::external_body]
pub(crate) fn sqlite_row() -> (r: i32)
    ensures
        r == 100i32,
{
    ffi::SQLITE_ROW
}

/// `libsqlite3_sys::SQLITE_DONE`, the result code of a step that finished the statement: the binding defines it as `101`.
#[verifier::external_body]
pub(crate) fn sqlite_done() -> (r: i32)
    ensures
        r == 101i32,
{
    ffi::SQLITE_DONE
}

/// `libsqlite3_sys::SQLITE_INTEGER`, the storage class of an INTEGER value: the binding defines it as `1`.
#[verifier::external_body]
pub(crate) fn sqlite_integer() -> (r: i32)
    ensures
        r == 1i32,
{
    ffi::SQLITE_INTEGER
}

/// `libsqlite3_sys::SQLITE_FLOAT`, the storage class of a REAL value: the binding defines it as `2`.
#[verifier::external_body]
pub(crate) fn sqlite_float() -> (r: i32)
    ensures
        r == 2i32,
{
    ffi::SQLITE_FLOAT
}

/// `libsqlite3_sys::SQLITE_TEXT`, the storage class of a TEXT value: the binding defines it as `3`.
#[verifier::external_body]
pub(crate) fn sqlite_text() -> (r: i32)
    ensures
        r == 3i32,
{
    ffi::SQLITE_TEXT
}

/// `libsqlite3_sys::SQLITE_BLOB`, the storage class of a BLOB value: the binding defines it as `4`.
#[verifier::external_body]
pub(crate) fn sqlite_blob() -> (r: i32)
    ensures
        r == 4i32,
{
    ffi::SQLITE_BLOB
}

/// `libsqlite3_sys::SQLITE_NULL`, the storage class of a NULL value: the binding defines it as `5`.
#[verifier::external_body]
pub(crate) fn sqlite_null() -> (r: i32)
    ensures
        r == 5i32,
{
    ffi::SQLITE_NULL
}

/// `libsqlite3_sys::SQLITE_ERROR`, the generic error result code: the binding defines it as `1`.
#[verifier::external_body]
pub(crate) fn sqlite_error() -> (r: i32)
    ensures
        r == 1i32,
{
    ffi::SQLITE_ERROR
}

/// `libsqlite3_sys::SQLITE_DENY`, the authorizer's deny answer: the binding defines it as `1`.
#[verifier::external_body]
pub(crate) fn sqlite_deny() -> (r: i32)
    ensures
        r == 1i32,
{
    ffi::SQLITE_DENY
}

/// `libsqlite3_sys::SQLITE_IGNORE`, the authorizer's ignore answer: the binding defines it as `2`.
#[verifier::external_body]
pub(crate) fn sqlite_ignore() -> (r: i32)
    ensures
        r == 2i32,
{
    ffi::SQLITE_IGNORE
}

/// `libsqlite3_sys::SQLITE_CONSTRAINT_CHECK`, the extended code of a CHECK constraint failure: the binding defines it as `275`.
#[verifier::external_body]
pub(crate) fn sqlite_constraint_check() -> (r: i32)
    ensures
        r == 275i32,
{
    ffi::SQLITE_CONSTRAINT_CHECK
}

/// `libsqlite3_sys::SQLITE_CONSTRAINT_FOREIGNKEY`, the extended code of a foreign key failure: the binding defines it as `787`.
#[verifier::external_body]
pub(crate) fn sqlite_constraint_foreignkey() -> (r: i32)
    ensures
        r == 787i32,
{
    ffi::SQLITE_CONSTRAINT_FOREIGNKEY
}

/// `libsqlite3_sys::SQLITE_CONSTRAINT_NOTNULL`, the extended code of a NOT NULL failure: the binding defines it as `1299`.
#[verifier::external_body]
pub(crate) fn sqlite_constraint_notnull() -> (r: i32)
    ensures
        r == 1299i32,
{
    ffi::SQLITE_CONSTRAINT_NOTNULL
}

/// `libsqlite3_sys::SQLITE_CONSTRAINT_PRIMARYKEY`, the extended code of a primary key failure: the binding defines it as `1555`.
#[verifier::external_body]
pub(crate) fn sqlite_constraint_primarykey() -> (r: i32)
    ensures
        r == 1555i32,
{
    ffi::SQLITE_CONSTRAINT_PRIMARYKEY
}

/// `libsqlite3_sys::SQLITE_CONSTRAINT_UNIQUE`, the extended code of a UNIQUE failure: the binding defines it as `2067`.
#[verifier::external_body]
pub(crate) fn sqlite_constraint_unique() -> (r: i32)
    ensures
        r == 2067i32,
{
    ffi::SQLITE_CONSTRAINT_UNIQUE
}

/// `libsqlite3_sys::SQLITE_OPEN_READWRITE`, the read-write open flag: the binding defines it as `2`.
#[verifier::external_body]
pub(crate) fn sqlite_open_readwrite() -> (r: i32)
    ensures
        r == 2i32,
{
    ffi::SQLITE_OPEN_READWRITE
}

/// `libsqlite3_sys::SQLITE_OPEN_CREATE`, the create open flag: the binding defines it as `4`.
#[verifier::external_body]
pub(crate) fn sqlite_open_create() -> (r: i32)
    ensures
        r == 4i32,
{
    ffi::SQLITE_OPEN_CREATE
}

/// `libsqlite3_sys::SQLITE_OPEN_URI`, the URI open flag: the binding defines it as `64`.
#[verifier::external_body]
pub(crate) fn sqlite_open_uri() -> (r: i32)
    ensures
        r == 64i32,
{
    ffi::SQLITE_OPEN_URI
}

/// `libsqlite3_sys::SQLITE_CREATE_INDEX`, the authorizer action code of CREATE INDEX: the binding defines it as `1`.
#[verifier::external_body]
pub(crate) fn sqlite_create_index() -> (r: i32)
    ensures
        r == 1i32,
{
    ffi::SQLITE_CREATE_INDEX
}

/// `libsqlite3_sys::SQLITE_CREATE_TABLE`, the authorizer action code of CREATE TABLE: the binding defines it as `2`.
#[verifier::external_body]
pub(crate) fn sqlite_create_table() -> (r: i32)
    ensures
        r == 2i32,
{
    ffi::SQLITE_CREATE_TABLE
}

/// `libsqlite3_sys::SQLITE_CREATE_TEMP_INDEX`, the authorizer action code of CREATE TEMP INDEX: the binding defines it as `3`.
#[verifier::external_body]
pub(crate) fn sqlite_create_temp_index() -> (r: i32)
    ensures
        r == 3i32,
{
    ffi::SQLITE_CREATE_TEMP_INDEX
}

/// `libsqlite3_sys::SQLITE_CREATE_TEMP_TABLE`, the authorizer action code of CREATE TEMP TABLE: the binding defines it as `4`.
#[verifier::external_body]
pub(crate) fn sqlite_create_temp_table() -> (r: i32)
    ensures
        r == 4i32,
{
    ffi::SQLITE_CREATE_TEMP_TABLE
}

/// `libsqlite3_sys::SQLITE_CREATE_TEMP_TRIGGER`, the authorizer action code of CREATE TEMP TRIGGER: the binding defines it as `5`.
#[verifier::external_body]
pub(crate) fn sqlite_create_temp_trigger() -> (r: i32)
    ensures
        r == 5i32,
{
    ffi::SQLITE_CREATE_TEMP_TRIGGER
}

/// `libsqlite3_sys::SQLITE_CREATE_TEMP_VIEW`, the authorizer action code of CREATE TEMP VIEW: the binding defines it as `6`.
#[verifier::external_body]
pub(crate) fn sqlite_create_temp_view() -> (r: i32)
    ensures
        r == 6i32,
{
    ffi::SQLITE_CREATE_TEMP_VIEW
}

/// `libsqlite3_sys::SQLITE_CREATE_TRIGGER`, the authorizer action code of CREATE TRIGGER: the binding defines it as `7`.
#[verifier::external_body]
pub(crate) fn sqlite_create_trigger() -> (r: i32)
    ensures
        r == 7i32,
{
    ffi::SQLITE_CREATE_TRIGGER
}

/// `libsqlite3_sys::SQLITE_CREATE_VIEW`, the authorizer action code of CREATE VIEW: the binding defines it as `8`.
#[verifier::external_body]
pub(crate) fn sqlite_create_view() -> (r: i32)
    ensures
        r == 8i32,
{
    ffi::SQLITE_CREATE_VIEW
}

/// `libsqlite3_sys::SQLITE_DELETE`, the authorizer action code of DELETE: the binding defines it as `9`.
#[verifier::external_body]
pub(crate) fn sqlite_delete() -> (r: i32)
    ensures
        r == 9i32,
{
    ffi::SQLITE_DELETE
}

/// `libsqlite3_sys::SQLITE_DROP_INDEX`, the authorizer action code of DROP INDEX: the binding defines it as `10`.
#[verifier::external_body]
pub(crate) fn sqlite_drop_index() -> (r: i32)
    ensures
        r == 10i32,
{
    ffi::SQLITE_DROP_INDEX
}

/// `libsqlite3_sys::SQLITE_DROP_TABLE`, the authorizer action code of DROP TABLE: the binding defines it as `11`.
#[verifier::external_body]
pub(crate) fn sqlite_drop_table() -> (r: i32)
    ensures
        r == 11i32,
{
    ffi::SQLITE_DROP_TABLE
}

/// `libsqlite3_sys::SQLITE_DROP_TEMP_INDEX`, the authorizer action code of DROP TEMP INDEX: the binding defines it as `12`.
#[verifier::external_body]
pub(crate) fn sqlite_drop_temp_index() -> (r: i32)
    ensures
        r == 12i32,
{
    ffi::SQLITE_DROP_TEMP_INDEX
}

/// `libsqlite3_sys::SQLITE_DROP_TEMP_TABLE`, the authorizer action code of DROP TEMP TABLE: the binding defines it as `13`.
#[verifier::external_body]
pub(crate) fn sqlite_drop_temp_table() -> (r: i32)
    ensures
        r == 13i32,
{
    ffi::SQLITE_DROP_TEMP_TABLE
}

/// `libsqlite3_sys::SQLITE_DROP_TEMP_TRIGGER`, the authorizer action code of DROP TEMP TRIGGER: the binding defines it as `14`.
#[verifier::external_body]
pub(crate) fn sqlite_drop_temp_trigger() -> (r: i32)
    ensures
        r == 14i32,
{
    ffi::SQLITE_DROP_TEMP_TRIGGER
}

/// `libsqlite3_sys::SQLITE_DROP_TEMP_VIEW`, the authorizer action code of DROP TEMP VIEW: the binding defines it as `15`.
#[verifier::external_body]
pub(crate) fn sqlite_drop_temp_view() -> (r: i32)
    ensures
        r == 15i32,
{
    ffi::SQLITE_DROP_TEMP_VIEW
}

/// `libsqlite3_sys::SQLITE_DROP_TRIGGER`, the authorizer action code of DROP TRIGGER: the binding defines it as `16`.
#[verifier::external_body]
pub(crate) fn sqlite_drop_trigger() -> (r: i32)
    ensures
        r == 16i32,
{
    ffi::SQLITE_DROP_TRIGGER
}

/// `libsqlite3_sys::SQLITE_DROP_VIEW`, the authorizer action code of DROP VIEW: the binding defines it as `17`.
#[verifier::external_body]
pub(crate) fn sqlite_drop_view() -> (r: i32)
    ensures
        r == 17i32,
{
    ffi::SQLITE_DROP_VIEW
}

/// `libsqlite3_sys::SQLITE_INSERT`, the authorizer action code of INSERT: the binding defines it as `18`.
#[verifier::external_body]
pub(crate) fn sqlite_insert() -> (r: i32)
    ensures
        r == 18i32,
{
    ffi::SQLITE_INSERT
}

/// `libsqlite3_sys::SQLITE_PRAGMA`, the authorizer action code of PRAGMA: the binding defines it as `19`.
#[verifier::external_body]
pub(crate) fn sqlite_pragma() -> (r: i32)
    ensures
        r == 19i32,
{
    ffi::SQLITE_PRAGMA
}

/// `libsqlite3_sys::SQLITE_READ`, the authorizer action code of a column read: the binding defines it as `20`.
#[verifier::external_body]
pub(crate) fn sqlite_read() -> (r: i32)
    ensures
        r == 20i32,
{
    ffi::SQLITE_READ
}

/// `libsqlite3_sys::SQLITE_SELECT`, the authorizer action code of SELECT: the binding defines it as `21`.
#[verifier::external_body]
pub(crate) fn sqlite_select() -> (r: i32)
    ensures
        r == 21i32,
{
    ffi::SQLITE_SELECT
}

/// `libsqlite3_sys::SQLITE_TRANSACTION`, the authorizer action code of transaction control: the binding defines it as `22`.
#[verifier::external_body]
pub(crate) fn sqlite_transaction() -> (r: i32)
    ensures
        r == 22i32,
{
    ffi::SQLITE_TRANSACTION
}

/// `libsqlite3_sys::SQLITE_UPDATE`, the authorizer action code of UPDATE: the binding defines it as `23`.
#[verifier::external_body]
pub(crate) fn sqlite_update() -> (r: i32)
    ensures
        r == 23i32,
{
    ffi::SQLITE_UPDATE
}

/// `libsqlite3_sys::SQLITE_ATTACH`, the authorizer action code of ATTACH: the binding defines it as `24`.
#[verifier::external_body]
pub(crate) fn sqlite_attach() -> (r: i32)
    ensures
        r == 24i32,
{
    ffi::SQLITE_ATTACH
}

/// `libsqlite3_sys::SQLITE_DETACH`, the authorizer action code of DETACH: the binding defines it as `25`.
#[verifier::external_body]
pub(crate) fn sqlite_detach() -> (r: i32)
    ensures
        r == 25i32,
{
    ffi::SQLITE_DETACH
}

/// `libsqlite3_sys::SQLITE_ALTER_TABLE`, the authorizer action code of ALTER TABLE: the binding defines it as `26`.
#[verifier::external_body]
pub(crate) fn sqlite_alter_table() -> (r: i32)
    ensures
        r == 26i32,
{
    ffi::SQLITE_ALTER_TABLE
}

/// `libsqlite3_sys::SQLITE_REINDEX`, the authorizer action code of REINDEX: the binding defines it as `27`.
#[verifier::external_body]
pub(crate) fn sqlite_reindex() -> (r: i32)
    ensures
        r == 27i32,
{
    ffi::SQLITE_REINDEX
}

/// `libsqlite3_sys::SQLITE_ANALYZE`, the authorizer action code of ANALYZE: the binding defines it as `28`.
#[verifier::external_body]
pub(crate) fn sqlite_analyze() -> (r: i32)
    ensures
        r == 28i32,
{
    ffi::SQLITE_ANALYZE
}

/// `libsqlite3_sys::SQLITE_CREATE_VTABLE`, the authorizer action code of CREATE VIRTUAL TABLE: the binding defines it as `29`.
#[verifier::external_body]
pub(crate) fn sqlite_create_vtable() -> (r: i32)
    ensures
        r == 29i32,
{
    ffi::SQLITE_CREATE_VTABLE
}

/// `libsqlite3_sys::SQLITE_DROP_VTABLE`, the authorizer action code of DROP VIRTUAL TABLE: the binding defines it as `30`.
#[verifier::external_body]
pub(crate) fn sqlite_drop_vtable() -> (r: i32)
    ensures
        r == 30i32,
{
    ffi::SQLITE_DROP_VTABLE
}

/// `libsqlite3_sys::SQLITE_FUNCTION`, the authorizer action code of a function call: the binding defines it as `31`.
#[verifier::external_body]
pub(crate) fn sqlite_function() -> (r: i32)
    ensures
        r == 31i32,
{
    ffi::SQLITE_FUNCTION
}

/// `libsqlite3_sys::SQLITE_SAVEPOINT`, the authorizer action code of SAVEPOINT: the binding defines it as `32`.
#[verifier::external_body]
pub(crate) fn sqlite_savepoint() -> (r: i32)
    ensures
        r == 32i32,
{
    ffi::SQLITE_SAVEPOINT
}

/// `libsqlite3_sys::SQLITE_RECURSIVE`, the authorizer action code of a recursive SELECT: the binding defines it as `33`.
#[verifier::external_body]
pub(crate) fn sqlite_recursive() -> (r: i32)
    ensures
        r == 33i32,
{
    ffi::SQLITE_RECURSIVE
}

/// `libsqlite3_sys::SQLITE_TRACE_STMT`, the statement-start trace event: the binding defines it as `1`.
#[verifier::external_body]
pub(crate) fn sqlite_trace_stmt() -> (r: u32)
    ensures
        r == 1u32,
{
    ffi::SQLITE_TRACE_STMT
}

/// `libsqlite3_sys::SQLITE_TRACE_PROFILE`, the statement-profile trace event: the binding defines it as `2`.
#[verifier::external_body]
pub(crate) fn sqlite_trace_profile() -> (r: u32)
    ensures
        r == 2u32,
{
    ffi::SQLITE_TRACE_PROFILE
}

/// `libsqlite3_sys::SQLITE_TRACE_ROW`, the row trace event: the binding defines it as `4`.
#[verifier::external_body]
pub(crate) fn sqlite_trace_row() -> (r: u32)
    ensures
        r == 4u32,
{
    ffi::SQLITE_TRACE_ROW
}

/// `libsqlite3_sys::SQLITE_LIMIT_LENGTH`, the length limit category: the binding defines it as `0`.
#[verifier::external_body]
pub(crate) fn sqlite_limit_length() -> (r: i32)
    ensures
        r == 0i32,
{
    ffi::SQLITE_LIMIT_LENGTH
}

/// `libsqlite3_sys::SQLITE_LIMIT_SQL_LENGTH`, the SQL length limit category: the binding defines it as `1`.
#[verifier::external_body]
pub(crate) fn sqlite_limit_sql_length() -> (r: i32)
    ensures
        r == 1i32,
{
    ffi::SQLITE_LIMIT_SQL_LENGTH
}

/// `libsqlite3_sys::SQLITE_LIMIT_COLUMN`, the column count limit category: the binding defines it as `2`.
#[verifier::external_body]
pub(crate) fn sqlite_limit_column() -> (r: i32)
    ensures
        r == 2i32,
{
    ffi::SQLITE_LIMIT_COLUMN
}

/// `libsqlite3_sys::SQLITE_LIMIT_EXPR_DEPTH`, the expression depth limit category: the binding defines it as `3`.
#[verifier::external_body]
pub(crate) fn sqlite_limit_expr_depth() -> (r: i32)
    ensures
        r == 3i32,
{
    ffi::SQLITE_LIMIT_EXPR_DEPTH
}

/// `libsqlite3_sys::SQLITE_LIMIT_COMPOUND_SELECT`, the compound select limit category: the binding defines it as `4`.
#[verifier::external_body]
pub(crate) fn sqlite_limit_compound_select() -> (r: i32)
    ensures
        r == 4i32,
{
    ffi::SQLITE_LIMIT_COMPOUND_SELECT
}

/// `libsqlite3_sys::SQLITE_LIMIT_VDBE_OP`, the VDBE opcode limit category: the binding defines it as `5`.
#[verifier::external_body]
pub(crate) fn sqlite_limit_vdbe_op() -> (r: i32)
    ensures
        r == 5i32,
{
    ffi::SQLITE_LIMIT_VDBE_OP
}

/// `libsqlite3_sys::SQLITE_LIMIT_FUNCTION_ARG`, the function argument limit category: the binding defines it as `6`.
#[verifier::external_body]
pub(crate) fn sqlite_limit_function_arg() -> (r: i32)
    ensures
        r == 6i32,
{
    ffi::SQLITE_LIMIT_FUNCTION_ARG
}

/// `libsqlite3_sys::SQLITE_LIMIT_ATTACHED`, the attached database limit category: the binding defines it as `7`.
#[verifier::external_body]
pub(crate) fn sqlite_limit_attached() -> (r: i32)
    ensures
        r == 7i32,
{
    ffi::SQLITE_LIMIT_ATTACHED
}

/// `libsqlite3_sys::SQLITE_LIMIT_LIKE_PATTERN_LENGTH`, the LIKE pattern length limit category: the binding defines it as `8`.
#[verifier::external_body]
pub(crate) fn sqlite_limit_like_pattern_length() -> (r: i32)
    ensures
        r == 8i32,
{
    ffi::SQLITE_LIMIT_LIKE_PATTERN_LENGTH
}

/// `libsqlite3_sys::SQLITE_LIMIT_VARIABLE_NUMBER`, the host parameter number limit category: the binding defines it as `9`.
#[verifier::external_body]
pub(crate) fn sqlite_limit_variable_number() -> (r: i32)
    ensures
        r == 9i32,
{
    ffi::SQLITE_LIMIT_VARIABLE_NUMBER
}

/// `libsqlite3_sys::SQLITE_LIMIT_TRIGGER_DEPTH`, the trigger depth limit category: the binding defines it as `10`.
#[verifier::external_body]
pub(crate) fn sqlite_limit_trigger_depth() -> (r: i32)
    ensures
        r == 10i32,
{
    ffi::SQLITE_LIMIT_TRIGGER_DEPTH
}

/// `libsqlite3_sys::SQLITE_LIMIT_WORKER_THREADS`, the worker thread limit category: the binding defines it as `11`.
#[verifier::external_body]
pub(crate) fn sqlite_limit_worker_threads() -> (r: i32)
    ensures
        r == 11i32,
{
    ffi::SQLITE_LIMIT_WORKER_THREADS
}

/// `libsqlite3_sys::SQLITE_DBCONFIG_ENABLE_FKEY`, the foreign key enforcement option: the binding defines it as `1002`.
#[verifier::external_body]
pub(crate) fn sqlite_dbconfig_enable_fkey() -> (r: i32)
    ensures
        r == 1002i32,
{
    ffi::SQLITE_DBCONFIG_ENABLE_FKEY
}

/// `libsqlite3_sys::SQLITE_DBCONFIG_ENABLE_TRIGGER`, the trigger option: the binding defines it as `1003`.
#[verifier::external_body]
pub(crate) fn sqlite_dbconfig_enable_trigger() -> (r: i32)
    ensures
        r == 1003i32,
{
    ffi::SQLITE_DBCONFIG_ENABLE_TRIGGER
}

/// `libsqlite3_sys::SQLITE_DBCONFIG_ENABLE_FTS3_TOKENIZER`, the fts3_tokenizer option: the binding defines it as `1004`.
#[verifier::external_body]
pub(crate) fn sqlite_dbconfig_enable_fts3_tokenizer() -> (r: i32)
    ensures
        r == 1004i32,
{
    ffi::SQLITE_DBCONFIG_ENABLE_FTS3_TOKENIZER
}

/// `libsqlite3_sys::SQLITE_DBCONFIG_ENABLE_LOAD_EXTENSION`, the extension loading option: the binding defines it as `1005`.
#[verifier::external_body]
pub(crate) fn sqlite_dbconfig_enable_load_extension() -> (r: i32)
    ensures
        r == 1005i32,
{
    ffi::SQLITE_DBCONFIG_ENABLE_LOAD_EXTENSION
}

/// `libsqlite3_sys::SQLITE_DBCONFIG_DEFENSIVE`, the defensive mode option: the binding defines it as `1010`.
#[verifier::external_body]
pub(crate) fn sqlite_dbconfig_defensive() -> (r: i32)
    ensures
        r == 1010i32,
{
    ffi::SQLITE_DBCONFIG_DEFENSIVE
}

/// `libsqlite3_sys::SQLITE_DBCONFIG_WRITABLE_SCHEMA`, the writable schema option: the binding defines it as `1011`.
#[verifier::external_body]
pub(crate) fn sqlite_dbconfig_writable_schema() -> (r: i32)
    ensures
        r == 1011i32,
{
    ffi::SQLITE_DBCONFIG_WRITABLE_SCHEMA
}

/// `libsqlite3_sys::SQLITE_DBCONFIG_DQS_DML`, the double-quoted strings in DML option: the binding defines it as `1013`.
#[verifier::external_body]
pub(crate) fn sqlite_dbconfig_dqs_dml() -> (r: i32)
    ensures
        r == 1013i32,
{
    ffi::SQLITE_DBCONFIG_DQS_DML
}

/// `libsqlite3_sys::SQLITE_DBCONFIG_DQS_DDL`, the double-quoted strings in DDL option: the binding defines it as `1014`.
#[verifier::external_body]
pub(crate) fn sqlite_dbconfig_dqs_ddl() -> (r: i32)
    ensures
        r == 1014i32,
{
    ffi::SQLITE_DBCONFIG_DQS_DDL
}

/// `libsqlite3_sys::SQLITE_DBCONFIG_ENABLE_VIEW`, the view option: the binding defines it as `1015`.
#[verifier::external_body]
pub(crate) fn sqlite_dbconfig_enable_view() -> (r: i32)
    ensures
        r == 1015i32,
{
    ffi::SQLITE_DBCONFIG_ENABLE_VIEW
}

/// `libsqlite3_sys::SQLITE_DBCONFIG_TRUSTED_SCHEMA`, the trusted schema option: the binding defines it as `1017`.
#[verifier::external_body]
pub(crate) fn sqlite_dbconfig_trusted_schema() -> (r: i32)
    ensures
        r == 1017i32,
{
    ffi::SQLITE_DBCONFIG_TRUSTED_SCHEMA
}

/// `libsqlite3_sys::SQLITE_UTF8`, the UTF-8 text encoding: the binding defines it as `1`.
#[verifier::external_body]
pub(crate) fn sqlite_utf8() -> (r: i32)
    ensures
        r == 1i32,
{
    ffi::SQLITE_UTF8
}

/// `libsqlite3_sys::SQLITE_UTF16LE`, the UTF-16 little-endian text encoding: the binding defines it as `2`.
#[verifier::external_body]
pub(crate) fn sqlite_utf16le() -> (r: i32)
    ensures
        r == 2i32,
{
    ffi::SQLITE_UTF16LE
}

/// `libsqlite3_sys::SQLITE_UTF16BE`, the UTF-16 big-endian text encoding: the binding defines it as `3`.
#[verifier::external_body]
pub(crate) fn sqlite_utf16be() -> (r: i32)
    ensures
        r == 3i32,
{
    ffi::SQLITE_UTF16BE
}

/// `libsqlite3_sys::SQLITE_PREPARE_PERSISTENT`, the persistent prepare flag: the binding defines it as `1`.
#[verifier::external_body]
pub(crate) fn sqlite_prepare_persistent() -> (r: u32)
    ensures
        r == 1u32,
{
    ffi::SQLITE_PREPARE_PERSISTENT
}

/// `libsqlite3_sys::SQLITE_DESERIALIZE_READONLY`, the read-only deserialize flag: the binding defines it as `4`.
#[verifier::external_body]
pub(crate) fn sqlite_deserialize_readonly() -> (r: u32)
    ensures
        r == 4u32,
{
    ffi::SQLITE_DESERIALIZE_READONLY
}
} // verus!
