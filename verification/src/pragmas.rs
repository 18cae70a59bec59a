//! The SQL text of the connection's maintenance statements (`PRAGMA`,
//! `VACUUM`, `ATTACH`, `DETACH`) and how their results are read.
//!
//! A `PRAGMA` accepts no bind parameter, so its schema is written as a quoted
//! identifier and its integer operands as literals. `name` is always one of
//! the library's own constants, never caller data.

use crate::error::Error;
use crate::sql::{decimal_text, i32_to_string, push_identifier, quoted_identifier, u32_to_string};
use vstd::prelude::*;

verus! {

/// Auto-vacuum mode of a database (`PRAGMA auto_vacuum`).
#[derive(Debug, Clone, Copy, PartialEq, Eq)]
#[non_exhaustive]
pub enum AutoVacuumMode {
    /// No auto-vacuum (0); SQLite calls this mode `NONE`.
    Disabled,
    /// Full auto-vacuum: free pages are moved to the end and truncated at
    /// every commit (1).
    Full,
    /// Incremental auto-vacuum: free pages are reclaimed by
    /// `incremental_vacuum` (2).
    Incremental,
}

impl AutoVacuumMode {
    /// The integer SQLite uses for the mode.
    pub open spec fn spec_value(self) -> i32 {
        match self {
            AutoVacuumMode::Disabled => 0,
            AutoVacuumMode::Full => 1,
            AutoVacuumMode::Incremental => 2,
        }
    }

    /// The integer SQLite uses for the mode.
    pub fn to_i32(self) -> (r: i32)
        ensures
            r == self.spec_value(),
    {
        match self {
            AutoVacuumMode::Disabled => 0,
            AutoVacuumMode::Full => 1,
            AutoVacuumMode::Incremental => 2,
        }
    }

    /// The mode SQLite reports as `value`; any other integer is not a mode.
    pub fn from_i32(value: i32) -> (r: Result<Self, Error>)
        ensures
            r is Ok <==> 0 <= value <= 2,
            r matches Ok(m) ==> m.spec_value() == value,
            r matches Err(e) ==> e is DeserializationError,
    {
        if value == 0 {
            Ok(AutoVacuumMode::Disabled)
        } else if value == 1 {
            Ok(AutoVacuumMode::Full)
        } else if value == 2 {
            Ok(AutoVacuumMode::Incremental)
        } else {
            Err(Error::DeserializationError(String::from_str("Unrecognized enum variant")))
        }
    }
}

/// Reading back a written auto-vacuum mode gives the same mode.
pub proof fn lemma_auto_vacuum_mode_round_trip(m: AutoVacuumMode, r: Result<AutoVacuumMode, Error>)
    requires
        r is Ok <==> 0 <= m.spec_value() <= 2,
        r matches Ok(x) ==> x.spec_value() == m.spec_value(),
    ensures
        r == Ok::<AutoVacuumMode, Error>(m),
{
}

/// Checkpoint mode of `PRAGMA wal_checkpoint`.
#[derive(Debug, Clone, Copy, PartialEq, Eq)]
#[non_exhaustive]
pub enum WalCheckpointMode {
    /// Checkpoint as many frames as possible without waiting for readers or writers.
    Passive,
    /// Wait for writers, then checkpoint every frame.
    Full,
    /// Like `Full`, then wait for readers so the next writer restarts the log.
    Restart,
    /// Like `Restart`, then truncate the log file to zero bytes.
    Truncate,
    /// Report the state of the log without checkpointing.
    Noop,
}

impl WalCheckpointMode {
    /// The pragma call for the mode.
    pub open spec fn spec_pragma(self) -> Seq<char> {
        match self {
            WalCheckpointMode::Passive => "wal_checkpoint(PASSIVE)"@,
            WalCheckpointMode::Full => "wal_checkpoint(FULL)"@,
            WalCheckpointMode::Restart => "wal_checkpoint(RESTART)"@,
            WalCheckpointMode::Truncate => "wal_checkpoint(TRUNCATE)"@,
            WalCheckpointMode::Noop => "wal_checkpoint(NOOP)"@,
        }
    }

    /// The pragma call for the mode, such as `wal_checkpoint(PASSIVE)`.
    pub fn pragma(self) -> (r: &'static str)
        ensures
            r@ == self.spec_pragma(),
    {
        match self {
            WalCheckpointMode::Passive => "wal_checkpoint(PASSIVE)",
            WalCheckpointMode::Full => "wal_checkpoint(FULL)",
            WalCheckpointMode::Restart => "wal_checkpoint(RESTART)",
            WalCheckpointMode::Truncate => "wal_checkpoint(TRUNCATE)",
            WalCheckpointMode::Noop => "wal_checkpoint(NOOP)",
        }
    }
}

/// What a WAL checkpoint reports.
#[derive(Debug, Clone, Copy, PartialEq, Eq)]
#[non_exhaustive]
pub struct WalCheckpointOutcome {
    /// Whether the checkpoint could not finish because of other connections.
    pub busy: bool,
    /// Frames in the log, or `None` when the database is not in WAL mode.
    pub log_frames: Option<i64>,
    /// Frames moved into the database, or `None` when the database is not in WAL mode.
    pub checkpointed_frames: Option<i64>,
}

impl WalCheckpointOutcome {
    /// The outcome from the row `(busy, log, checkpointed)` the pragma
    /// returns; a count below zero (SQLite's -1 outside WAL mode) is `None`.
    pub fn from_row(busy: i32, log_frames: i64, checkpointed_frames: i64) -> (r: Self)
        ensures
            r.busy == (busy != 0),
            r.log_frames == (if log_frames >= 0 { Some(log_frames) } else { None }),
            r.checkpointed_frames == (if checkpointed_frames >= 0 {
                Some(checkpointed_frames)
            } else {
                None
            }),
    {
        WalCheckpointOutcome {
            busy: busy != 0,
            log_frames: if log_frames >= 0 {
                Some(log_frames)
            } else {
                None
            },
            checkpointed_frames: if checkpointed_frames >= 0 {
                Some(checkpointed_frames)
            } else {
                None
            },
        }
    }
}

/// The schema a statement targets: the given one, or `main`.
pub open spec fn schema_or_main(schema: Option<&str>) -> Seq<char> {
    match schema {
        Some(s) => s@,
        None => "main"@,
    }
}

/// A statement's SQL text and the text values bound to its `?` placeholders,
/// in order.
#[derive(Debug, Clone)]
pub struct SqlQuery<'a> {
    /// The SQL text.
    pub sql: String,
    /// The values of the placeholders, in order.
    pub binds: Vec<&'a str>,
}

/// A pragma read, `PRAGMA <schema>.<name>`.
#[derive(Debug, Clone, Copy)]
pub struct Pragma<'a> {
    /// The schema, `main` when `None`.
    pub schema: Option<&'a str>,
    /// The pragma's name.
    pub name: &'static str,
}

impl<'a> Pragma<'a> {
    /// The read of pragma `name` in `schema`.
    pub fn new(name: &'static str, schema: Option<&'a str>) -> (r: Self)
        ensures
            r.name == name,
            r.schema == schema,
    {
        Pragma { schema, name }
    }

    /// The SQL text: `PRAGMA`, the quoted schema, a dot and the name.
    pub fn to_sql(&self) -> (r: String)
        ensures
            r@ == "PRAGMA "@ + quoted_identifier(schema_or_main(self.schema)) + "."@ + self.name@,
    {
        let mut out = String::from_str("PRAGMA ");
        let schema: &str = match self.schema {
            Some(s) => s,
            None => "main",
        };
        push_identifier(&mut out, schema);
        out.append(".");
        out.append(self.name);
        out
    }
}

/// The SQL text that sets an integer pragma: `PRAGMA <schema>.<name> = <value>`.
pub fn set_pragma_int_sql(schema: Option<&str>, name: &str, value: i32) -> (r: String)
    ensures
        r@ == "PRAGMA "@ + quoted_identifier(schema_or_main(schema)) + "."@ + name@ + " = "@
            + decimal_text(value as int),
{
    let mut out = String::from_str("PRAGMA ");
    let s: &str = match schema {
        Some(s) => s,
        None => "main",
    };
    push_identifier(&mut out, s);
    out.append(".");
    out.append(name);
    out.append(" = ");
    let v = i32_to_string(value);
    out.append(v.as_str());
    out
}

/// The SQL text of `PRAGMA <schema>.incremental_vacuum`, with `(<pages>)`
/// when a page count is given.
pub fn incremental_vacuum_sql(schema: Option<&str>, pages: Option<u32>) -> (r: String)
    ensures
        r@ == "PRAGMA "@ + quoted_identifier(schema_or_main(schema)) + ".incremental_vacuum"@ + (
        match pages {
            Some(p) => "("@ + decimal_text(p as int) + ")"@,
            None => Seq::<char>::empty(),
        }),
{
    let mut out = String::from_str("PRAGMA ");
    let s: &str = match schema {
        Some(s) => s,
        None => "main",
    };
    push_identifier(&mut out, s);
    out.append(".incremental_vacuum");
    let ghost base = out@;
    match pages {
        Some(p) => {
            out.append("(");
            let t = u32_to_string(p);
            out.append(t.as_str());
            out.append(")");
        },
        None => {
            assert(out@ =~= base + Seq::<char>::empty());
        },
    }
    out
}

/// The `VACUUM` of a schema, written to a new database file when `into` is
/// given: `VACUUM <schema>` with ` INTO ?` bound to the path.
pub fn vacuum_query<'a>(schema: Option<&str>, into: Option<&'a str>) -> (r: SqlQuery<'a>)
    ensures
        r.sql@ == "VACUUM "@ + quoted_identifier(schema_or_main(schema)) + (match into {
            Some(_) => " INTO ?"@,
            None => Seq::<char>::empty(),
        }),
        r.binds@ == (match into {
            Some(p) => seq![p],
            None => Seq::<&'a str>::empty(),
        }),
{
    let mut out = String::from_str("VACUUM ");
    let s: &str = match schema {
        Some(s) => s,
        None => "main",
    };
    push_identifier(&mut out, s);
    let ghost base = out@;
    let mut binds: Vec<&'a str> = Vec::new();
    match into {
        Some(p) => {
            out.append(" INTO ?");
            binds.push(p);
        },
        None => {
            assert(out@ =~= base + Seq::<char>::empty());
        },
    }
    SqlQuery { sql: out, binds }
}

/// The SQL text of a WAL checkpoint: `PRAGMA`, the quoted schema and a dot
/// when a schema is given (none checkpoints every attached database), then
/// the mode's pragma call.
pub fn wal_checkpoint_sql(schema: Option<&str>, mode: WalCheckpointMode) -> (r: String)
    ensures
        r@ == "PRAGMA "@ + (match schema {
            Some(s) => quoted_identifier(s@) + "."@,
            None => Seq::<char>::empty(),
        }) + mode.spec_pragma(),
{
    let mut out = String::from_str("PRAGMA ");
    let ghost base = out@;
    match schema {
        Some(s) => {
            push_identifier(&mut out, s);
            out.append(".");
        },
        None => {
            assert(out@ =~= base + Seq::<char>::empty());
        },
    }
    out.append(mode.pragma());
    out
}

/// `ATTACH DATABASE ? AS ?`, with the path and the schema name bound.
pub fn attach_database_query<'a>(path: &'a str, schema_name: &'a str) -> (r: SqlQuery<'a>)
    ensures
        r.sql@ == "ATTACH DATABASE ? AS ?"@,
        r.binds@ == seq![path, schema_name],
{
    let mut binds: Vec<&'a str> = Vec::new();
    binds.push(path);
    binds.push(schema_name);
    SqlQuery { sql: String::from_str("ATTACH DATABASE ? AS ?"), binds }
}

/// `DETACH DATABASE ?`, with the schema name bound.
pub fn detach_database_query<'a>(schema_name: &'a str) -> (r: SqlQuery<'a>)
    ensures
        r.sql@ == "DETACH DATABASE ?"@,
        r.binds@ == seq![schema_name],
{
    let mut binds: Vec<&'a str> = Vec::new();
    binds.push(schema_name);
    SqlQuery { sql: String::from_str("DETACH DATABASE ?"), binds }
}

} // verus!
