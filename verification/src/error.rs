//! The errors the connection reports, and how SQLite's result codes become
//! them.

use crate::codes;
use vstd::prelude::*;

verus! {

/// The kind of a database error, as far as the extended result code tells it.
#[derive(Debug, Clone, Copy, PartialEq, Eq)]
#[non_exhaustive]
pub enum DatabaseErrorKind {
    /// A UNIQUE or PRIMARY KEY constraint failed.
    UniqueViolation,
    /// A FOREIGN KEY constraint failed.
    ForeignKeyViolation,
    /// A NOT NULL constraint failed.
    NotNullViolation,
    /// A CHECK constraint failed.
    CheckViolation,
    /// The command could not be sent to the database.
    UnableToSendCommand,
    /// Any other failure.
    Unknown,
}

/// An error of the connection layer.
#[derive(Debug, Clone, PartialEq, Eq)]
#[non_exhaustive]
pub enum Error {
    /// SQLite reported a failure; the message is SQLite's.
    DatabaseError(DatabaseErrorKind, String),
    /// An integer did not fit the type it had to be converted to.
    IntegerConversion,
    /// Closing a handle failed, or the handle was closed already.
    ClosingHandle(String),
    /// A value could not be serialized for SQLite.
    SerializationError(String),
    /// A value SQLite returned could not be deserialized.
    DeserializationError(String),
    /// A string that has to go to SQLite as a C string holds a NUL byte.
    InvalidCString,
    /// The SQL text holds no statement.
    EmptyQuery,
    /// A query that had to return a row returned none.
    NotFound,
}

/// The error kind that an extended result code stands for.
pub open spec fn spec_error_kind(extended_code: i32) -> DatabaseErrorKind {
    if extended_code == 2067 || extended_code == 1555 {
        DatabaseErrorKind::UniqueViolation
    } else if extended_code == 787 {
        DatabaseErrorKind::ForeignKeyViolation
    } else if extended_code == 1299 {
        DatabaseErrorKind::NotNullViolation
    } else if extended_code == 275 {
        DatabaseErrorKind::CheckViolation
    } else {
        DatabaseErrorKind::Unknown
    }
}

/// Only the constraint failures SQLite names get a kind of their own:
/// `SQLITE_CONSTRAINT_UNIQUE` (2067) and `SQLITE_CONSTRAINT_PRIMARYKEY`
/// (1555) are unique violations, `SQLITE_CONSTRAINT_FOREIGNKEY` (787) a
/// foreign key violation, `SQLITE_CONSTRAINT_NOTNULL` (1299) a not-null
/// violation and `SQLITE_CONSTRAINT_CHECK` (275) a check violation; every
/// other code, other constraint failures (a trigger's `RAISE`, a `STRICT`
/// type error) included, is of unknown kind, and no code is reported as a
/// failure to send a command.
pub proof fn lemma_error_kinds_follow_sqlites_codes(extended_code: i32)
    ensures
        spec_error_kind(extended_code) == DatabaseErrorKind::UniqueViolation <==> (extended_code == 2067
            || extended_code == 1555),
        spec_error_kind(extended_code) == DatabaseErrorKind::ForeignKeyViolation <==> extended_code == 787,
        spec_error_kind(extended_code) == DatabaseErrorKind::NotNullViolation <==> extended_code == 1299,
        spec_error_kind(extended_code) == DatabaseErrorKind::CheckViolation <==> extended_code == 275,
        spec_error_kind(extended_code) == DatabaseErrorKind::Unknown <==> (extended_code != 2067
            && extended_code != 1555 && extended_code != 787 && extended_code != 1299 && extended_code
            != 275),
        spec_error_kind(extended_code) != DatabaseErrorKind::UnableToSendCommand,
{
}

/// Classifies a failure by its extended result code: UNIQUE and PRIMARY KEY
/// failures are unique violations, and FOREIGN KEY, NOT NULL and CHECK
/// failures have kinds of their own.
pub fn error_kind(extended_code: i32) -> (r: DatabaseErrorKind)
    ensures
        r == spec_error_kind(extended_code),
{
    if extended_code == codes::sqlite_constraint_unique() || extended_code
        == codes::sqlite_constraint_primarykey() {
        DatabaseErrorKind::UniqueViolation
    } else if extended_code == codes::sqlite_constraint_foreignkey() {
        DatabaseErrorKind::ForeignKeyViolation
    } else if extended_code == codes::sqlite_constraint_notnull() {
        DatabaseErrorKind::NotNullViolation
    } else if extended_code == codes::sqlite_constraint_check() {
        DatabaseErrorKind::CheckViolation
    } else {
        DatabaseErrorKind::Unknown
    }
}

/// The error for the connection's last failure, from its extended result
/// code and its error message.
pub fn last_error(extended_code: i32, message: String) -> (r: Error)
    ensures
        r == Error::DatabaseError(spec_error_kind(extended_code), message),
{
    Error::DatabaseError(error_kind(extended_code), message)
}

/// Succeeds on `SQLITE_OK`; on any other result code fails with the
/// connection's last error, built from its extended result code and message.
pub fn ensure_sqlite_ok(code: i32, extended_code: i32, message: String) -> (r: Result<(), Error>)
    ensures
        code == 0 ==> r == Ok::<(), Error>(()),
        code != 0 ==> r == Err::<(), Error>(Error::DatabaseError(spec_error_kind(extended_code), message)),
{
    if code == codes::sqlite_ok() {
        Ok(())
    } else {
        Err(last_error(extended_code, message))
    }
}

/// Succeeds on `SQLITE_OK`; any other result code fails with an error of
/// unknown kind whose message is SQLite's English text for the code.
pub fn check_result_code(code: i32) -> (r: Result<(), Error>)
    ensures
        code == 0 <==> r is Ok,
        r matches Err(e) ==> (e matches Error::DatabaseError(k, m) && k == DatabaseErrorKind::Unknown
            && m@ == codes::result_code_text(code)),
{
    if code == codes::sqlite_ok() {
        Ok(())
    } else {
        let message = String::from_str(codes::error_message(code));
        Err(Error::DatabaseError(DatabaseErrorKind::Unknown, message))
    }
}

} // verus!
