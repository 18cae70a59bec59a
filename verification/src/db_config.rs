//! The boolean `sqlite3_db_config` options a connection can switch, and how
//! a switch and a query of one are passed to SQLite and read back.

use crate::codes;
use crate::error::{Error, spec_error_kind};
use vstd::prelude::*;

verus! {

/// `sqlite3_db_config()` option code that controls whether `ATTACH` may
/// create new database files (SQLite 3.49.0 and later).
pub const SQLITE_DBCONFIG_ENABLE_ATTACH_CREATE: i32 = 1020i32;

/// `sqlite3_db_config()` option code that controls whether `ATTACH` opens
/// database files for writing (SQLite 3.49.0 and later).
pub const SQLITE_DBCONFIG_ENABLE_ATTACH_WRITE: i32 = 1021i32;

/// A boolean `sqlite3_db_config` option.
#[derive(Debug, Clone, Copy, PartialEq, Eq)]
pub enum DbConfigOption {
    /// Defensive mode: forbids language features that can corrupt the database.
    Defensive,
    /// Whether SQL functions and virtual tables in the schema are trusted.
    TrustedSchema,
    /// Whether `load_extension()` may be used.
    LoadExtension,
    /// Whether the two-argument `fts3_tokenizer()` function is enabled.
    Fts3Tokenizer,
    /// Whether `sqlite_schema` may be written directly.
    WritableSchema,
    /// Whether `ATTACH` may create new database files.
    AttachCreate,
    /// Whether `ATTACH` opens databases for writing.
    AttachWrite,
    /// Whether triggers fire.
    Triggers,
    /// Whether views may be used.
    Views,
    /// Whether foreign key constraints are enforced.
    ForeignKeys,
    /// Whether double-quoted string literals are accepted in DML.
    DoubleQuotedStringsDml,
    /// Whether double-quoted string literals are accepted in DDL.
    DoubleQuotedStringsDdl,
}

impl DbConfigOption {
    /// The `SQLITE_DBCONFIG_*` code of the option.
    pub open spec fn spec_code(self) -> i32 {
        match self {
            DbConfigOption::Defensive => 1010,
            DbConfigOption::TrustedSchema => 1017,
            DbConfigOption::LoadExtension => 1005,
            DbConfigOption::Fts3Tokenizer => 1004,
            DbConfigOption::WritableSchema => 1011,
            DbConfigOption::AttachCreate => 1020,
            DbConfigOption::AttachWrite => 1021,
            DbConfigOption::Triggers => 1003,
            DbConfigOption::Views => 1015,
            DbConfigOption::ForeignKeys => 1002,
            DbConfigOption::DoubleQuotedStringsDml => 1013,
            DbConfigOption::DoubleQuotedStringsDdl => 1014,
        }
    }

    /// The `SQLITE_DBCONFIG_*` code passed to `sqlite3_db_config` for the option.
    pub fn code(self) -> (r: i32)
        ensures
            r == self.spec_code(),
    {
        match self {
            DbConfigOption::Defensive => codes::sqlite_dbconfig_defensive(),
            DbConfigOption::TrustedSchema => codes::sqlite_dbconfig_trusted_schema(),
            DbConfigOption::LoadExtension => codes::sqlite_dbconfig_enable_load_extension(),
            DbConfigOption::Fts3Tokenizer => codes::sqlite_dbconfig_enable_fts3_tokenizer(),
            DbConfigOption::WritableSchema => codes::sqlite_dbconfig_writable_schema(),
            DbConfigOption::AttachCreate => SQLITE_DBCONFIG_ENABLE_ATTACH_CREATE,
            DbConfigOption::AttachWrite => SQLITE_DBCONFIG_ENABLE_ATTACH_WRITE,
            DbConfigOption::Triggers => codes::sqlite_dbconfig_enable_trigger(),
            DbConfigOption::Views => codes::sqlite_dbconfig_enable_view(),
            DbConfigOption::ForeignKeys => codes::sqlite_dbconfig_enable_fkey(),
            DbConfigOption::DoubleQuotedStringsDml => codes::sqlite_dbconfig_dqs_dml(),
            DbConfigOption::DoubleQuotedStringsDdl => codes::sqlite_dbconfig_dqs_ddl(),
        }
    }
}

/// The value passed to `sqlite3_db_config` to read an option without changing it.
pub const QUERY_FLAG_VALUE: i32 = -1i32;

/// The integer `sqlite3_db_config` is given to switch an option on or off.
pub open spec fn spec_flag_value(enabled: bool) -> i32 {
    if enabled {
        1
    } else {
        0
    }
}

/// The integer passed to `sqlite3_db_config` to switch an option to `enabled`.
pub fn flag_value(enabled: bool) -> (r: i32)
    ensures
        r == spec_flag_value(enabled),
{
    if enabled {
        1
    } else {
        0
    }
}

/// The outcome of reading an option: SQLite's result code decides success,
/// and on success the option is on when the value it wrote back is not 0.
pub fn read_flag(code: i32, current: i32, extended_code: i32, message: String) -> (r: Result<
    bool,
    Error,
>)
    ensures
        code == 0 ==> r == Ok::<bool, Error>(current != 0),
        code != 0 ==> r == Err::<bool, Error>(Error::DatabaseError(spec_error_kind(extended_code), message)),
{
    match crate::error::ensure_sqlite_ok(code, extended_code, message) {
        Ok(()) => Ok(current != 0),
        Err(e) => Err(e),
    }
}

/// Switching an option and reading it back gives the value it was switched
/// to: the value written for `enabled` reads back as `enabled`.
pub proof fn lemma_flag_round_trip(enabled: bool)
    ensures
        (spec_flag_value(enabled) != 0) == enabled,
        spec_flag_value(enabled) != QUERY_FLAG_VALUE,
{
}

/// Distinct options have distinct codes.
pub proof fn lemma_option_codes_are_distinct(a: DbConfigOption, b: DbConfigOption)
    requires
        a.spec_code() == b.spec_code(),
    ensures
        a == b,
{
}

} // verus!
